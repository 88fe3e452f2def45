//! The pseudo-random generator that scenes and frames draw from. It is
//! handed to each function that draws from it; the library keeps none.

use vstd::prelude::*;
use rand::rngs::StdRng;

verus! {

/// The standard generator of the `rand` crate.
#[verifier::external_type_specification]
#[verifier::external_body]
pub struct ExStdRng(rand::rngs::StdRng);

/// Draws 32 bits with `RngCore::next_u32`. Nothing is claimed of the value
/// drawn.
#[verifier::external_body]
pub(crate) fn next_u32(rng: &mut StdRng) -> (draw: u32) {
    rand::RngCore::next_u32(rng)
}

/// Overwrites `bytes` with `RngCore::fill_bytes`. The contract claims that
/// the buffer keeps its length, as the slice that is filled keeps its own,
/// and nothing of the bytes drawn.
#[verifier::external_body]
pub(crate) fn fill_random(rng: &mut StdRng, bytes: &mut Vec<u8>)
    ensures
        final(bytes)@.len() == old(bytes)@.len(),
{
    rand::RngCore::fill_bytes(rng, bytes.as_mut_slice());
}

} // verus!
