//! The seeded byte-stream adapter: a deterministic pseudorandom stream,
//! seeded once per fuzz input, that supplies the byte values and integer
//! draws for one test iteration.
#![allow(unused_imports)]
use vstd::prelude::*;
use rand_core::{RngCore, SeedableRng};

verus! {

#[verifier::external_type_specification]
#[verifier::external_body]
pub struct ExChaCha20Rng(rand_chacha::ChaCha20Rng);

/// The bytes a fill of `n` produces on a stream seeded with `seed`, after
/// the draws recorded in `ops` were already made.
pub uninterp spec fn stream_fill_bytes(seed: Seq<u8>, ops: Seq<int>, n: int) -> Seq<u8>;

/// The 32-bit integer a draw produces on a stream seeded with `seed`, after
/// the draws recorded in `ops` were already made.
pub uninterp spec fn stream_next_u32(seed: Seq<u8>, ops: Seq<int>) -> u32;

/// The 32-byte generator seed derived from a fuzz input: the first 32 bytes,
/// padded with zeros when the input is shorter.
pub open spec fn seed_of(data: Seq<u8>) -> Seq<u8> {
    Seq::new(32, |i: int| if i < data.len() { data[i] } else { 0u8 })
}

/// A deterministic pseudorandom byte stream seeded from one fuzz input.
///
/// The ghost fields record the seed and the history of draws; each draw is
/// recorded as its byte count for a fill and as `-1` for an integer draw.
/// Every value the stream hands out is pinned, through `stream_fill_bytes`
/// and `stream_next_u32`, by the seed and that history alone.
pub struct SeededStream {
    rng: rand_chacha::ChaCha20Rng,
    gseed: Ghost<Seq<u8>>,
    gops: Ghost<Seq<int>>,
}

/// Relies on rand_chacha::ChaCha20Rng::from_seed: builds the generator from
/// the given 32 seed bytes; seeding is deterministic, so the whole stream is
/// a function of those bytes.
#[verifier::external_body]
fn chacha_from_seed(seed: &Vec<u8>) -> rand_chacha::ChaCha20Rng
    requires
        seed@.len() == 32,
{
    let mut arr = [0u8; 32];
    arr.copy_from_slice(seed.as_slice());
    rand_chacha::ChaCha20Rng::from_seed(arr)
}

impl SeededStream {
    /// The seed this stream was built from.
    pub closed spec fn seed(self) -> Seq<u8> {
        self.gseed@
    }

    /// The history of draws made so far: each fill as its byte count, each
    /// integer draw as `-1`.
    pub closed spec fn ops(self) -> Seq<int> {
        self.gops@
    }

    /// Seeds a fresh stream from a fuzz input.
    pub fn new(data: &[u8]) -> (s: SeededStream)
        ensures
            s.seed() == seed_of(data@),
            s.ops() == Seq::<int>::empty(),
    {
        let seed = make_seed(data);
        let rng = chacha_from_seed(&seed);
        SeededStream { rng, gseed: Ghost(seed@), gops: Ghost(Seq::empty()) }
    }

    /// Relies on rand_core::RngCore::fill_bytes for ChaCha20Rng: it fills the
    /// whole buffer, and the bytes are a function of the seed and of the
    /// draws made so far.
    #[verifier::external_body]
    pub fn fill(&mut self, n: usize) -> (r: Vec<u8>)
        ensures
            r@ == stream_fill_bytes(old(self).seed(), old(self).ops(), n as int),
            r@.len() == n,
            final(self).seed() == old(self).seed(),
            final(self).ops() == old(self).ops().push(n as int),
    {
        let mut buf = vec![0u8; n];
        self.rng.fill_bytes(&mut buf);
        buf
    }

    /// Relies on rand_core::RngCore::next_u32 for ChaCha20Rng: the integer is
    /// a function of the seed and of the draws made so far.
    #[verifier::external_body]
    pub fn next_u32(&mut self) -> (r: u32)
        ensures
            r == stream_next_u32(old(self).seed(), old(self).ops()),
            final(self).seed() == old(self).seed(),
            final(self).ops() == old(self).ops().push(-1),
    {
        self.rng.next_u32()
    }
}

/// Lays the fuzz input out as a 32-byte generator seed: the first 32 bytes
/// of the input, zero-padded when the input is shorter.
pub fn make_seed(data: &[u8]) -> (r: Vec<u8>)
    ensures
        r@ == seed_of(data@),
{
    let mut out: Vec<u8> = Vec::new();
    let mut i: usize = 0;
    while i < 32
        invariant
            i <= 32,
            out@.len() == i,
            forall|j: int| 0 <= j < i ==> out@[j] == seed_of(data@)[j],
        decreases 32 - i,
    {
        if i < data.len() {
            out.push(data[i]);
        } else {
            out.push(0u8);
        }
        i = i + 1;
    }
    proof {
        assert(out@ =~= seed_of(data@));
    }
    out
}

} // verus!
