#![allow(unused_imports)]
use vstd::prelude::*;

pub mod cases;
pub mod compare;
pub mod driver;
pub mod hkdf_oracle;
pub mod pbkdf2_oracle;
pub mod stream;

verus! {

/// Number of bytes in a SHA-512 digest.
pub const SHA512_OUTSIZE: usize = 64;
/// Largest output length that HKDF-SHA512 expand accepts: 255 blocks of one
/// digest each.
pub const HKDF_MAX_OKM: usize = 16320;
/// Output length substituted when the natural HKDF choice is out of range.
pub const HKDF_FALLBACK_OKM: usize = 256;
/// Derived-key length substituted when the stream draws zero for PBKDF2.
pub const PBKDF2_FALLBACK_DK: usize = 64;
/// Largest length of secret material or salt handed to a digest here, well
/// under every underlying hash's input limit.
pub const MAX_MATERIAL_LEN: usize = 0xFFFF_FFFF;

/// `natural` when it lies in `[1, max]`, else `fallback`.
pub open spec fn clamped_len(natural: int, max: int, fallback: int) -> int {
    if natural < 1 || natural > max {
        fallback
    } else {
        natural
    }
}

/// Selects the output length for a derivation: the natural value when it is
/// in range, the fixed fallback otherwise.
pub fn clamp_output_length(natural: usize, max: usize, fallback: usize) -> (r: usize)
    ensures
        r == clamped_len(natural as int, max as int, fallback as int),
{
    if natural < 1 || natural > max {
        fallback
    } else {
        natural
    }
}

} // verus!
