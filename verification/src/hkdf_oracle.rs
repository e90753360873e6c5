//! The HKDF oracle: runs both implementations' two-step (extract, then
//! expand) and fused derivation entry points on one test case and requires
//! the outputs of each path to be byte-identical across implementations.
//!
//! The reference implementation is the orion crate; the comparison
//! implementation is the hkdf crate over sha2. Both compute
//! HKDF-HMAC-SHA512.
#![allow(unused_imports)]
use vstd::prelude::*;
use crate::cases::HkdfCase;
use crate::compare::{judge_outputs, KdfError};
use crate::{HKDF_MAX_OKM, MAX_MATERIAL_LEN, SHA512_OUTSIZE};
use hkdf::Hkdf;
use orion::hazardous::kdf::hkdf::{Hkdf as OrionHkdf, SHA512 as OrionSha512};
use orion::hazardous::mac::hmac::sha512::Tag as OrionTag;
use sha2::Sha512;

verus! {

#[verifier::external_type_specification]
#[verifier::external_body]
pub struct ExUnknownCryptoError(orion::errors::UnknownCryptoError);

/// The pseudorandom key orion's HKDF-SHA512 extract computes from a salt and
/// input key material.
pub uninterp spec fn orion_extract_of(salt: Seq<u8>, ikm: Seq<u8>) -> Seq<u8>;

/// The `n`-byte output orion's HKDF-SHA512 expand computes from a
/// pseudorandom key and info bytes.
pub uninterp spec fn orion_expand_of(prk: Seq<u8>, info: Seq<u8>, n: int) -> Seq<u8>;

/// The `n`-byte output of orion's fused HKDF-SHA512 derivation.
pub uninterp spec fn orion_derive_of(salt: Seq<u8>, ikm: Seq<u8>, info: Seq<u8>, n: int) -> Seq<u8>;

/// The pseudorandom key the hkdf crate's HKDF-SHA512 extract computes.
pub uninterp spec fn other_extract_of(salt: Seq<u8>, ikm: Seq<u8>) -> Seq<u8>;

/// The `n`-byte output the hkdf crate's HKDF-SHA512 expand computes.
pub uninterp spec fn other_expand_of(prk: Seq<u8>, info: Seq<u8>, n: int) -> Seq<u8>;

/// The `n`-byte output of the hkdf crate's one-shot HKDF-SHA512 derivation.
pub uninterp spec fn other_derive_of(salt: Seq<u8>, ikm: Seq<u8>, info: Seq<u8>, n: int) -> Seq<u8>;

/// Both implementations' two-step (extract, then expand) paths agree.
pub open spec fn hkdf_split_agrees(salt: Seq<u8>, ikm: Seq<u8>, info: Seq<u8>, n: int) -> bool {
    orion_expand_of(orion_extract_of(salt, ikm), info, n) == other_expand_of(
        other_extract_of(salt, ikm),
        info,
        n,
    )
}

/// Both implementations' fused derivation paths agree.
pub open spec fn hkdf_fused_agrees(salt: Seq<u8>, ikm: Seq<u8>, info: Seq<u8>, n: int) -> bool {
    orion_derive_of(salt, ikm, info, n) == other_derive_of(salt, ikm, info, n)
}

/// Both paths agree across implementations.
pub open spec fn hkdf_agrees(salt: Seq<u8>, ikm: Seq<u8>, info: Seq<u8>, n: int) -> bool {
    hkdf_split_agrees(salt, ikm, info, n) && hkdf_fused_agrees(salt, ikm, info, n)
}

/// Relies on orion's Hkdf::<SHA512>::extract: for material under the
/// digest's input limit it cannot fail, the pseudorandom key is one SHA-512
/// digest long, and it is a function of salt and input key material alone.
#[verifier::external_body]
fn orion_hkdf_extract(salt: &[u8], ikm: &[u8]) -> (r: Result<
    Vec<u8>,
    orion::errors::UnknownCryptoError,
>)
    requires
        salt@.len() <= MAX_MATERIAL_LEN,
        ikm@.len() <= MAX_MATERIAL_LEN,
    ensures
        r is Ok,
        r matches Ok(v) ==> v@ == orion_extract_of(salt@, ikm@) && v@.len() == SHA512_OUTSIZE,
{
    let tag = OrionHkdf::<OrionSha512>::extract(salt, ikm)?;
    let bytes: &[u8] = tag.unprotected_as_ref();
    Ok(bytes.to_vec())
}

/// Relies on orion's Hkdf::<SHA512>::expand (and Tag::try_from to rebuild
/// the key object): for a digest-long pseudorandom key, bounded info bytes
/// and an output length in the construction's range neither can fail, the
/// output fills the whole buffer, and it is a function of the pseudorandom
/// key, the info bytes and the length alone.
#[verifier::external_body]
fn orion_hkdf_expand(prk: &[u8], info: &[u8], out_len: usize) -> (r: Result<
    Vec<u8>,
    orion::errors::UnknownCryptoError,
>)
    requires
        prk@.len() == SHA512_OUTSIZE,
        info@.len() <= MAX_MATERIAL_LEN,
        1 <= out_len <= HKDF_MAX_OKM,
    ensures
        r is Ok,
        r matches Ok(v) ==> v@ == orion_expand_of(prk@, info@, out_len as int) && v@.len()
            == out_len,
{
    let tag = OrionTag::try_from(prk)?;
    let mut out = vec![0u8; out_len];
    OrionHkdf::<OrionSha512>::expand(&tag, Some(info), &mut out)?;
    Ok(out)
}

/// Relies on orion's Hkdf::<SHA512>::derive_key, the fused
/// extract-then-expand entry point: for bounded material and an output
/// length in the construction's range it cannot fail, the output fills the
/// whole buffer, and it is a function of the arguments alone.
#[verifier::external_body]
fn orion_hkdf_derive(salt: &[u8], ikm: &[u8], info: &[u8], out_len: usize) -> (r: Result<
    Vec<u8>,
    orion::errors::UnknownCryptoError,
>)
    requires
        salt@.len() <= MAX_MATERIAL_LEN,
        ikm@.len() <= MAX_MATERIAL_LEN,
        info@.len() <= MAX_MATERIAL_LEN,
        1 <= out_len <= HKDF_MAX_OKM,
    ensures
        r is Ok,
        r matches Ok(v) ==> v@ == orion_derive_of(salt@, ikm@, info@, out_len as int) && v@.len()
            == out_len,
{
    let mut out = vec![0u8; out_len];
    OrionHkdf::<OrionSha512>::derive_key(salt, ikm, Some(info), &mut out)?;
    Ok(out)
}

/// Relies on the hkdf crate's Hkdf::<Sha512>::extract: it cannot fail, the
/// pseudorandom key is one SHA-512 digest long and a function of salt and
/// input key material alone.
#[verifier::external_body]
fn other_hkdf_extract(salt: &[u8], ikm: &[u8]) -> (r: Vec<u8>)
    requires
        salt@.len() <= MAX_MATERIAL_LEN,
        ikm@.len() <= MAX_MATERIAL_LEN,
    ensures
        r@ == other_extract_of(salt@, ikm@),
        r@.len() == SHA512_OUTSIZE,
{
    let (prk, _) = Hkdf::<Sha512>::extract(Some(salt), ikm);
    let bytes: &[u8] = prk.as_ref();
    bytes.to_vec()
}

/// Relies on the hkdf crate's Hkdf::from_prk and expand: for a digest-long
/// pseudorandom key and an output no longer than 255 digests neither can
/// fail, the output fills the whole buffer, and it is a function of the
/// pseudorandom key, the info bytes and the length alone.
#[verifier::external_body]
fn other_hkdf_expand(prk: &[u8], info: &[u8], out_len: usize) -> (r: Vec<u8>)
    requires
        prk@.len() == SHA512_OUTSIZE,
        out_len <= HKDF_MAX_OKM,
    ensures
        r@ == other_expand_of(prk@, info@, out_len as int),
        r@.len() == out_len,
{
    let hk = Hkdf::<Sha512>::from_prk(prk).expect("pseudorandom key is one digest long");
    let mut out = vec![0u8; out_len];
    hk.expand(info, &mut out).expect("output length is in range");
    out
}

/// Relies on the hkdf crate's Hkdf::<Sha512>::new and expand, its one-shot
/// derivation path: for an output no longer than 255 digests it cannot
/// fail, the output fills the whole buffer, and it is a function of the
/// arguments alone.
#[verifier::external_body]
fn other_hkdf_derive(salt: &[u8], ikm: &[u8], info: &[u8], out_len: usize) -> (r: Vec<u8>)
    requires
        salt@.len() <= MAX_MATERIAL_LEN,
        ikm@.len() <= MAX_MATERIAL_LEN,
        out_len <= HKDF_MAX_OKM,
    ensures
        r@ == other_derive_of(salt@, ikm@, info@, out_len as int),
        r@.len() == out_len,
{
    let hk = Hkdf::<Sha512>::new(Some(salt), ikm);
    let mut out = vec![0u8; out_len];
    hk.expand(info, &mut out).expect("output length is in range");
    out
}

/// The outputs an iteration of the HKDF oracle agreed on: one from the
/// two-step path, one from the fused path. The two paths are not
/// cross-checked against each other, only across implementations.
pub struct HkdfOutputs {
    pub split: Vec<u8>,
    pub fused: Vec<u8>,
}

/// Runs both implementations' two-step and fused HKDF paths on one case.
///
/// It returns normally exactly when both paths agree across implementations,
/// and the returned outputs are then the agreed derivations; any mismatch is
/// a divergence. Neither library can reject the already-clamped parameters.
pub fn hkdf_oracle(case: &HkdfCase) -> (r: Result<HkdfOutputs, KdfError>)
    requires
        case.wf(),
        case.salt@.len() <= MAX_MATERIAL_LEN,
        case.ikm@.len() <= MAX_MATERIAL_LEN,
        case.info@.len() <= MAX_MATERIAL_LEN,
    ensures
        r is Ok <==> hkdf_agrees(case.salt@, case.ikm@, case.info@, case.okm_len as int),
        r matches Ok(out) ==> {
            &&& out.split@ == orion_expand_of(
                orion_extract_of(case.salt@, case.ikm@),
                case.info@,
                case.okm_len as int,
            )
            &&& out.fused@ == orion_derive_of(
                case.salt@,
                case.ikm@,
                case.info@,
                case.okm_len as int,
            )
            &&& out.split@.len() == case.okm_len
            &&& out.fused@.len() == case.okm_len
        },
        r matches Err(e) ==> e == KdfError::Divergence,
{
    let prk_ours = orion_hkdf_extract(case.salt.as_slice(), case.ikm.as_slice()).unwrap();
    let split_ours = orion_hkdf_expand(
        prk_ours.as_slice(),
        case.info.as_slice(),
        case.okm_len,
    ).unwrap();
    let prk_theirs = other_hkdf_extract(case.salt.as_slice(), case.ikm.as_slice());
    let split_theirs = other_hkdf_expand(prk_theirs.as_slice(), case.info.as_slice(), case.okm_len);
    judge_outputs(&split_ours, &split_theirs)?;
    let fused_ours = orion_hkdf_derive(
        case.salt.as_slice(),
        case.ikm.as_slice(),
        case.info.as_slice(),
        case.okm_len,
    ).unwrap();
    let fused_theirs = other_hkdf_derive(
        case.salt.as_slice(),
        case.ikm.as_slice(),
        case.info.as_slice(),
        case.okm_len,
    );
    judge_outputs(&fused_ours, &fused_theirs)?;
    Ok(HkdfOutputs { split: split_ours, fused: fused_ours })
}

} // verus!
