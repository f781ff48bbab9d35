use rand::rngs::StdRng;
use rand_core::RngCore;
use vstd::prelude::*;

verus! {

/// The seedable generator of the `rand` crate, carried through as an opaque
/// value.
#[verifier::external_type_specification]
#[verifier::external_body]
pub struct ExStdRng(StdRng);

/// Draws the next 64 bits from the generator with `RngCore::next_u64`.
///
/// Nothing is claimed of the word that comes back, nor of the generator's
/// state afterwards.
#[verifier::external_body]
pub(crate) fn next_word(rng: &mut StdRng) -> (word: u64) {
    rng.next_u64()
}

} // verus!
