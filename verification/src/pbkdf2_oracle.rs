//! The PBKDF2 oracle: runs both implementations' single derivation entry
//! point on one test case and requires the derived keys to be
//! byte-identical.
//!
//! The reference implementation is the orion crate; the comparison
//! implementation is the ring crate. Both compute PBKDF2-HMAC-SHA512.
#![allow(unused_imports)]
use vstd::prelude::*;
use crate::cases::Pbkdf2Case;
use crate::compare::{judge_outputs, KdfError};
use crate::MAX_MATERIAL_LEN;
use core::num::NonZeroU32;
use orion::hazardous::kdf::pbkdf2::{Pbkdf2 as OrionPbkdf2, SHA512 as OrionSha512};

verus! {

/// The derived key orion's PBKDF2-HMAC-SHA512 computes from a password,
/// salt, iteration count and requested length.
pub uninterp spec fn orion_pbkdf2_of(password: Seq<u8>, salt: Seq<u8>, iterations: int, n: int) -> Seq<u8>;

/// The derived key ring's PBKDF2-HMAC-SHA512 computes from the same inputs.
pub uninterp spec fn ring_pbkdf2_of(password: Seq<u8>, salt: Seq<u8>, iterations: int, n: int) -> Seq<u8>;

/// Both implementations' derivations agree.
pub open spec fn pbkdf2_agrees(password: Seq<u8>, salt: Seq<u8>, iterations: int, n: int) -> bool {
    orion_pbkdf2_of(password, salt, iterations, n) == ring_pbkdf2_of(password, salt, iterations, n)
}

/// Relies on orion's Pbkdf2::<SHA512>::derive_key: for a positive iteration
/// count, a bounded non-empty output and material under the digest's input
/// limit it cannot fail, the derived key fills the whole buffer, and it is a
/// function of the arguments alone.
#[verifier::external_body]
fn orion_pbkdf2_derive(password: &[u8], salt: &[u8], iterations: u32, dk_len: usize) -> (r: Result<
    Vec<u8>,
    orion::errors::UnknownCryptoError,
>)
    requires
        1 <= iterations,
        1 <= dk_len <= 65535,
        password@.len() <= MAX_MATERIAL_LEN,
        salt@.len() <= MAX_MATERIAL_LEN,
    ensures
        r is Ok,
        r matches Ok(v) ==> v@ == orion_pbkdf2_of(password@, salt@, iterations as int, dk_len as int)
            && v@.len() == dk_len,
{
    let mut out = vec![0u8; dk_len];
    OrionPbkdf2::<OrionSha512>::derive_key(password, salt, iterations as usize, &mut out)?;
    Ok(out)
}

/// Relies on ring's pbkdf2::derive with PBKDF2_HMAC_SHA512: for a positive
/// iteration count, an output of at most 65535 bytes and material well under
/// the digest's input limit it cannot fail, the derived key fills the whole
/// buffer, and it is a function of the arguments alone.
#[verifier::external_body]
fn ring_pbkdf2_derive(password: &[u8], salt: &[u8], iterations: u32, dk_len: usize) -> (r: Vec<u8>)
    requires
        1 <= iterations,
        1 <= dk_len <= 65535,
        password@.len() <= MAX_MATERIAL_LEN,
        salt@.len() <= MAX_MATERIAL_LEN,
    ensures
        r@ == ring_pbkdf2_of(password@, salt@, iterations as int, dk_len as int),
        r@.len() == dk_len,
{
    let mut out = vec![0u8; dk_len];
    let iters = NonZeroU32::new(iterations).expect("iteration count is positive");
    ring::pbkdf2::derive(ring::pbkdf2::PBKDF2_HMAC_SHA512, iters, salt, password, &mut out);
    out
}

/// Runs both implementations' PBKDF2 derivation on one case.
///
/// It returns normally exactly when the two derivations are byte-identical,
/// and the returned key is then the agreed derivation; a mismatch is a
/// divergence. Neither library can reject the already-clamped parameters.
pub fn pbkdf2_oracle(case: &Pbkdf2Case) -> (r: Result<Vec<u8>, KdfError>)
    requires
        case.wf(),
        case.password@.len() <= MAX_MATERIAL_LEN,
        case.salt@.len() <= MAX_MATERIAL_LEN,
    ensures
        r is Ok <==> pbkdf2_agrees(
            case.password@,
            case.salt@,
            case.iterations as int,
            case.dk_len as int,
        ),
        r matches Ok(v) ==> {
            &&& v@ == orion_pbkdf2_of(
                case.password@,
                case.salt@,
                case.iterations as int,
                case.dk_len as int,
            )
            &&& v@.len() == case.dk_len
        },
        r matches Err(e) ==> e == KdfError::Divergence,
{
    let dk_ours = orion_pbkdf2_derive(
        case.password.as_slice(),
        case.salt.as_slice(),
        case.iterations,
        case.dk_len,
    ).unwrap();
    let dk_theirs = ring_pbkdf2_derive(
        case.password.as_slice(),
        case.salt.as_slice(),
        case.iterations,
        case.dk_len,
    );
    judge_outputs(&dk_ours, &dk_theirs)?;
    Ok(dk_ours)
}

} // verus!
