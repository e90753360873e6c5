//! The test-case builder: maps one fuzz input, plus the seeded byte stream,
//! into one fully specified parameter set per derivation family, applying
//! all boundary-clamping policy.
#![allow(unused_imports)]
use vstd::prelude::*;
use crate::stream::{SeededStream, stream_fill_bytes, stream_next_u32, seed_of};
use crate::{clamped_len, clamp_output_length, HKDF_MAX_OKM, HKDF_FALLBACK_OKM, PBKDF2_FALLBACK_DK};

verus! {

/// A sequence of `n` zero bytes.
pub open spec fn zero_bytes(n: int) -> Seq<u8> {
    Seq::new(n as nat, |i: int| 0u8)
}

/// Length of the secret material (input key material, password) derived
/// from a fuzz input of length `l`: half of it, truncated.
pub open spec fn secret_len_of(l: int) -> int {
    l / 2
}

/// Length of the salt derived from a fuzz input of length `l`: a quarter of
/// it, truncated.
pub open spec fn salt_len_of(l: int) -> int {
    l / 4
}

/// Length of the HKDF info bytes: the numeric value of the input's first
/// byte, or zero for an empty input.
pub open spec fn info_len_of(data: Seq<u8>) -> int {
    if data.len() == 0 {
        0
    } else {
        data[0] as int
    }
}

/// The HKDF output length: half the input length when that is in range for
/// the extract-then-expand construction, else the fixed fallback.
pub open spec fn okm_len_of(l: int) -> int {
    clamped_len(l / 2, HKDF_MAX_OKM as int, HKDF_FALLBACK_OKM as int)
}

/// The derived-key length taken from a 32-bit draw: the draw narrowed to 16
/// bits, with zero remapped to the fixed fallback.
pub open spec fn dk_len_from_draw(draw: u32) -> int {
    if draw as u16 == 0 {
        PBKDF2_FALLBACK_DK as int
    } else {
        (draw as u16) as int
    }
}

/// The iteration count taken from a 32-bit draw: the draw narrowed to 16
/// bits, with zero remapped to one.
pub open spec fn iterations_from_draw(draw: u32) -> int {
    if draw as u16 == 0 {
        1
    } else {
        (draw as u16) as int
    }
}

/// One fully specified HKDF test case.
pub struct HkdfCase {
    pub ikm: Vec<u8>,
    pub salt: Vec<u8>,
    pub info: Vec<u8>,
    pub okm_len: usize,
}

impl HkdfCase {
    /// The case the builder derives from `data` on a stream whose state is
    /// `(seed, ops)`: every field is a function of those values alone.
    pub open spec fn derived_from(self, data: Seq<u8>, seed: Seq<u8>, ops: Seq<int>) -> bool {
        let l = data.len() as int;
        &&& self.ikm@ == stream_fill_bytes(seed, ops, secret_len_of(l))
        &&& self.ikm@.len() == secret_len_of(l)
        &&& self.salt@ == stream_fill_bytes(seed, ops.push(secret_len_of(l)), salt_len_of(l))
        &&& self.salt@.len() == salt_len_of(l)
        &&& self.info@ == zero_bytes(info_len_of(data))
        &&& self.okm_len == okm_len_of(l)
    }

    /// The invariant the clamping policy establishes: the output length is
    /// always in the valid range of the construction.
    pub open spec fn wf(self) -> bool {
        1 <= self.okm_len <= HKDF_MAX_OKM
    }
}

/// One fully specified PBKDF2 test case.
pub struct Pbkdf2Case {
    pub password: Vec<u8>,
    pub salt: Vec<u8>,
    pub dk_len: usize,
    pub iterations: u32,
}

impl Pbkdf2Case {
    /// The case the builder derives from `data` on a stream whose state is
    /// `(seed, ops)`: every field is a function of those values alone. The
    /// derived-key length is drawn before the iteration count.
    pub open spec fn derived_from(self, data: Seq<u8>, seed: Seq<u8>, ops: Seq<int>) -> bool {
        let l = data.len() as int;
        let ops1 = ops.push(secret_len_of(l));
        let ops2 = ops1.push(salt_len_of(l));
        let ops3 = ops2.push(-1);
        &&& self.password@ == stream_fill_bytes(seed, ops, secret_len_of(l))
        &&& self.password@.len() == secret_len_of(l)
        &&& self.salt@ == stream_fill_bytes(seed, ops1, salt_len_of(l))
        &&& self.salt@.len() == salt_len_of(l)
        &&& self.dk_len == dk_len_from_draw(stream_next_u32(seed, ops2))
        &&& self.iterations == iterations_from_draw(stream_next_u32(seed, ops3))
    }

    /// The invariant the remapping policy establishes: iteration count and
    /// derived-key length are both in `[1, 65535]`.
    pub open spec fn wf(self) -> bool {
        &&& 1 <= self.dk_len <= 65535
        &&& 1 <= self.iterations <= 65535
    }
}

/// A vector of `n` zero bytes.
pub fn zero_vec(n: usize) -> (r: Vec<u8>)
    ensures
        r@ == zero_bytes(n as int),
        r@.len() == n,
{
    let mut out: Vec<u8> = Vec::new();
    let mut i: usize = 0;
    while i < n
        invariant
            i <= n,
            out@.len() == i,
            forall|j: int| 0 <= j < i ==> out@[j] == 0u8,
        decreases n - i,
    {
        out.push(0u8);
        i = i + 1;
    }
    proof {
        assert(out@ =~= zero_bytes(n as int));
    }
    out
}

/// Derives the HKDF test case for `data`, drawing the key material and salt
/// from the stream and applying the output-length clamping policy.
pub fn build_hkdf_case(data: &[u8], st: &mut SeededStream) -> (c: HkdfCase)
    ensures
        c.derived_from(data@, old(st).seed(), old(st).ops()),
        c.wf(),
        final(st).seed() == old(st).seed(),
        final(st).ops() == old(st).ops().push(secret_len_of(data@.len() as int)).push(
            salt_len_of(data@.len() as int),
        ),
{
    let ikm = st.fill(data.len() / 2);
    let salt = st.fill(data.len() / 4);
    let info_len: usize = if data.len() == 0 {
        0
    } else {
        data[0] as usize
    };
    let info = zero_vec(info_len);
    let okm_len = clamp_output_length(data.len() / 2, HKDF_MAX_OKM, HKDF_FALLBACK_OKM);
    HkdfCase { ikm, salt, info, okm_len }
}

/// Derives the PBKDF2 test case for `data`: password and salt from the
/// stream, then the derived-key length and iteration count as 16-bit draws
/// with their zero remappings.
pub fn build_pbkdf2_case(data: &[u8], st: &mut SeededStream) -> (c: Pbkdf2Case)
    ensures
        c.derived_from(data@, old(st).seed(), old(st).ops()),
        c.wf(),
        final(st).seed() == old(st).seed(),
        final(st).ops() == old(st).ops().push(secret_len_of(data@.len() as int)).push(
            salt_len_of(data@.len() as int),
        ).push(-1).push(-1),
{
    let password = st.fill(data.len() / 2);
    let salt = st.fill(data.len() / 4);
    let dk_draw = st.next_u32();
    let dk_narrow: u16 = dk_draw as u16;
    let dk_len: usize = if dk_narrow == 0 {
        PBKDF2_FALLBACK_DK
    } else {
        dk_narrow as usize
    };
    let iter_draw = st.next_u32();
    let iter_narrow: u16 = iter_draw as u16;
    let iterations: u32 = if iter_narrow == 0 {
        1
    } else {
        iter_narrow as u32
    };
    Pbkdf2Case { password, salt, dk_len, iterations }
}

/// The clamping policy keeps the HKDF output length inside the valid range
/// of the extract-then-expand construction: it equals half the input length
/// when that value is in range, else the fixed fallback, and in either case
/// lies in `[1, HKDF_MAX_OKM]`.
pub proof fn lemma_okm_len_in_range(l: int)
    requires
        0 <= l,
    ensures
        1 <= okm_len_of(l) <= HKDF_MAX_OKM as int,
        1 <= l / 2 <= HKDF_MAX_OKM as int ==> okm_len_of(l) == l / 2,
        !(1 <= l / 2 <= HKDF_MAX_OKM as int) ==> okm_len_of(l) == HKDF_FALLBACK_OKM as int,
{
}

/// The 16-bit narrowing with its zero remappings keeps the PBKDF2 iteration
/// count and derived-key length in `[1, 65535]`: a zero draw becomes one
/// iteration and the fallback key length, any other draw is taken as is.
pub proof fn lemma_pbkdf2_draws_in_range(draw: u32)
    ensures
        1 <= dk_len_from_draw(draw) <= 65535,
        1 <= iterations_from_draw(draw) <= 65535,
        draw as u16 == 0 ==> dk_len_from_draw(draw) == PBKDF2_FALLBACK_DK as int,
        draw as u16 == 0 ==> iterations_from_draw(draw) == 1,
        draw as u16 != 0 ==> dk_len_from_draw(draw) == (draw as u16) as int,
        draw as u16 != 0 ==> iterations_from_draw(draw) == (draw as u16) as int,
{
}

/// The test-case builder is deterministic: any two cases derived from the
/// same fuzz input on streams in the same state agree in every field.
pub proof fn lemma_builder_deterministic(
    data: Seq<u8>,
    seed: Seq<u8>,
    ops: Seq<int>,
    h1: HkdfCase,
    h2: HkdfCase,
    p1: Pbkdf2Case,
    p2: Pbkdf2Case,
)
    requires
        h1.derived_from(data, seed, ops),
        h2.derived_from(data, seed, ops),
        p1.derived_from(data, seed, ops),
        p2.derived_from(data, seed, ops),
    ensures
        h1.ikm@ == h2.ikm@,
        h1.salt@ == h2.salt@,
        h1.info@ == h2.info@,
        h1.okm_len == h2.okm_len,
        p1.password@ == p2.password@,
        p1.salt@ == p2.salt@,
        p1.dk_len == p2.dk_len,
        p1.iterations == p2.iterations,
{
}

} // verus!
