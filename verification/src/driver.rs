//! One iteration of the differential oracle: seed the stream from the fuzz
//! input, build both test cases, and run both oracles. The surrounding
//! driver loop aborts the process on any error.
#![allow(unused_imports)]
use vstd::prelude::*;
use crate::cases::{
    build_hkdf_case, build_pbkdf2_case, dk_len_from_draw, info_len_of, iterations_from_draw,
    okm_len_of, salt_len_of, secret_len_of, zero_bytes, HkdfCase, Pbkdf2Case,
};
use crate::compare::KdfError;
use crate::hkdf_oracle::{hkdf_agrees, hkdf_oracle};
use crate::pbkdf2_oracle::{pbkdf2_agrees, pbkdf2_oracle};
use crate::stream::{seed_of, stream_fill_bytes, stream_next_u32, SeededStream};
use crate::MAX_MATERIAL_LEN;

verus! {

/// The input key material the builder derives for the HKDF case of `data`.
pub open spec fn hkdf_ikm_of(data: Seq<u8>) -> Seq<u8> {
    stream_fill_bytes(seed_of(data), Seq::empty(), secret_len_of(data.len() as int))
}

/// The salt the builder derives for the HKDF case of `data`.
pub open spec fn hkdf_salt_of(data: Seq<u8>) -> Seq<u8> {
    stream_fill_bytes(
        seed_of(data),
        Seq::empty().push(secret_len_of(data.len() as int)),
        salt_len_of(data.len() as int),
    )
}

/// The history of draws after the HKDF case of `data` is built.
pub open spec fn ops_after_hkdf(data: Seq<u8>) -> Seq<int> {
    Seq::empty().push(secret_len_of(data.len() as int)).push(salt_len_of(data.len() as int))
}

/// The password the builder derives for the PBKDF2 case of `data`.
pub open spec fn pbkdf2_password_of(data: Seq<u8>) -> Seq<u8> {
    stream_fill_bytes(seed_of(data), ops_after_hkdf(data), secret_len_of(data.len() as int))
}

/// The salt the builder derives for the PBKDF2 case of `data`.
pub open spec fn pbkdf2_salt_of(data: Seq<u8>) -> Seq<u8> {
    stream_fill_bytes(
        seed_of(data),
        ops_after_hkdf(data).push(secret_len_of(data.len() as int)),
        salt_len_of(data.len() as int),
    )
}

/// The derived-key length the builder draws for the PBKDF2 case of `data`.
pub open spec fn pbkdf2_dk_len_of(data: Seq<u8>) -> int {
    dk_len_from_draw(
        stream_next_u32(
            seed_of(data),
            ops_after_hkdf(data).push(secret_len_of(data.len() as int)).push(
                salt_len_of(data.len() as int),
            ),
        ),
    )
}

/// The iteration count the builder draws for the PBKDF2 case of `data`.
pub open spec fn pbkdf2_iterations_of(data: Seq<u8>) -> int {
    iterations_from_draw(
        stream_next_u32(
            seed_of(data),
            ops_after_hkdf(data).push(secret_len_of(data.len() as int)).push(
                salt_len_of(data.len() as int),
            ).push(-1),
        ),
    )
}

/// Both implementations agree on every derivation of the iteration for
/// `data`: the two HKDF paths and the PBKDF2 derivation.
pub open spec fn iteration_agrees(data: Seq<u8>) -> bool {
    &&& hkdf_agrees(
        hkdf_salt_of(data),
        hkdf_ikm_of(data),
        zero_bytes(info_len_of(data)),
        okm_len_of(data.len() as int),
    )
    &&& pbkdf2_agrees(
        pbkdf2_password_of(data),
        pbkdf2_salt_of(data),
        pbkdf2_iterations_of(data),
        pbkdf2_dk_len_of(data),
    )
}

/// Runs one full iteration on one fuzz input: seeds the stream, builds the
/// HKDF case and compares both its paths across implementations, then builds
/// the PBKDF2 case and compares its derivation.
///
/// It returns normally exactly when every comparison matched; any error is
/// a divergence, and the caller must treat it as fatal.
pub fn run_iteration(data: &[u8]) -> (r: Result<(), KdfError>)
    requires
        data@.len() <= MAX_MATERIAL_LEN,
    ensures
        r is Ok <==> iteration_agrees(data@),
        r matches Err(e) ==> e == KdfError::Divergence,
{
    let mut st = SeededStream::new(data);
    let hkdf_case = build_hkdf_case(data, &mut st);
    match hkdf_oracle(&hkdf_case) {
        Ok(_) => (),
        Err(e) => {
            return Err(e);
        },
    }
    let pbkdf2_case = build_pbkdf2_case(data, &mut st);
    match pbkdf2_oracle(&pbkdf2_case) {
        Ok(_) => Ok(()),
        Err(e) => Err(e),
    }
}

} // verus!
