//! The source of randomness that the games draw from.
//!
//! Every draw goes through one of the functions below, so a session can be
//! replayed by handing it a generator with a known seed.

use rand::rngs::StdRng;
use rand::seq::SliceRandom;
use rand::Rng;
use vstd::prelude::*;

verus! {

/// `StdRng` of rand: a generator whose state is its own affair.
#[verifier::external_type_specification]
#[verifier::external_body]
pub struct ExStdRng(StdRng);

/// `SliceRandom::shuffle` of rand. It reorders the slice in place by swapping
/// pairs of its items, so the vector holds afterwards exactly the items it
/// held before, each as often. Nothing is claimed of their order.
#[verifier::external_body]
pub(crate) fn shuffle<T>(items: &mut Vec<T>, rng: &mut StdRng)
    ensures
        final(items)@.to_multiset() == old(items)@.to_multiset(),
{
    items.shuffle(rng);
}

/// `Rng::random` of rand at `u64`. Any value may come back.
#[verifier::external_body]
pub(crate) fn random_u64(rng: &mut StdRng) -> (value: u64) {
    rng.random::<u64>()
}

/// `Rng::random_range` of rand over the inclusive range `low..=high`. It panics
/// on an empty range, which `requires` leaves out; what it returns lies in the
/// range.
#[verifier::external_body]
pub(crate) fn random_range(rng: &mut StdRng, low: u64, high: u64) -> (value: u64)
    requires
        low <= high,
    ensures
        low <= value <= high,
{
    rng.random_range(low..=high)
}

/// `Rng::random_ratio` of rand. It panics when the denominator is zero or the
/// numerator exceeds it, which `requires` leaves out. Its documentation
/// promises `true` where both are equal and `false` where the numerator is
/// zero; in between either answer may come.
#[verifier::external_body]
pub(crate) fn random_ratio(rng: &mut StdRng, numerator: u32, denominator: u32) -> (hit: bool)
    requires
        denominator > 0,
        numerator <= denominator,
    ensures
        numerator == denominator ==> hit,
        numerator == 0 ==> !hit,
{
    rng.random_ratio(numerator, denominator)
}

} // verus!
