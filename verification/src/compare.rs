//! The comparison step of the oracle: deciding whether two derivation
//! outputs are byte-identical, and the error taxonomy of a failed iteration.
#![allow(unused_imports)]
use vstd::prelude::*;

verus! {

/// Why an iteration failed.
///
/// `Divergence`: the two implementations produced different outputs for
/// logically identical inputs. `Construction` names the other failure class
/// of the design, a library rejecting the already-clamped parameters; the
/// oracles' contracts prove that class unreachable for the parameters they
/// admit, so every error they return is a divergence. Both are fatal to the
/// driver.
#[derive(Clone, Copy, Debug, PartialEq, Eq, Structural)]
pub enum KdfError {
    Divergence,
    Construction,
}

/// True byte-for-byte equality of two outputs.
pub fn bytes_eq(a: &[u8], b: &[u8]) -> (r: bool)
    ensures
        r <==> a@ == b@,
{
    if a.len() != b.len() {
        proof {
            assert(a@.len() != b@.len());
        }
        return false;
    }
    let mut i: usize = 0;
    while i < a.len()
        invariant
            i <= a@.len(),
            a@.len() == b@.len(),
            forall|j: int| 0 <= j < i ==> a@[j] == b@[j],
        decreases a@.len() - i,
    {
        if a[i] != b[i] {
            return false;
        }
        i = i + 1;
    }
    proof {
        assert(a@ =~= b@);
    }
    true
}

/// Judges one pair of outputs: a match continues silently, a mismatch is the
/// divergence the oracle exists to catch.
pub fn judge_outputs(ours: &Vec<u8>, theirs: &Vec<u8>) -> (r: Result<(), KdfError>)
    ensures
        r matches Ok(()) <==> ours@ == theirs@,
        r matches Err(e) ==> e == KdfError::Divergence && ours@ != theirs@,
{
    if bytes_eq(ours.as_slice(), theirs.as_slice()) {
        Ok(())
    } else {
        Err(KdfError::Divergence)
    }
}

} // verus!
