//! The source of chance: the thread-local generator of the `rand` crate.

use rand::rngs::ThreadRng;
use rand::Rng;
use vstd::prelude::*;

verus! {

/// `rand::rngs::ThreadRng`, the generator that `rand::thread_rng` hands out.
/// Nothing is known of its state.
#[verifier::external_type_specification]
#[verifier::external_body]
pub struct ExThreadRng(rand::rngs::ThreadRng);

/// Calls `rand::Rng::gen_range` on `rng` with the bounds `low` and `high`.
///
/// Trusted, not proved: the number drawn is at least `low` and less than
/// `high`. Which number it is depends on the generator and is not stated.
/// `gen_range` panics on an empty range, so `low` must be less than `high`.
#[verifier::external_body]
pub(crate) fn gen_range(rng: &mut ThreadRng, low: u128, high: u128) -> (drawn: u128)
    requires
        low < high,
    ensures
        low <= drawn < high,
{
    rng.gen_range(low, high)
}

} // verus!
