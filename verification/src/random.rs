//! The random draws the game makes, taken from `rand`'s thread-local
//! generator.
use rand::seq::IndexedRandom;
use rand::RngExt;
use std::ops::RangeInclusive;
use vstd::prelude::*;

verus! {

/// Calls `rand::RngExt::random_range` on `rand::rng()` with the inclusive
/// range `interval`: rand documents a uniform draw from the range, which
/// lies between its two ends, and a panic on an empty range, which the
/// `requires` rules out. Which value comes out is left unsaid: it is chance.
#[verifier::external_body]
pub(crate) fn random_in(interval: &RangeInclusive<u64>) -> (r: u64)
    requires
        interval@.start <= interval@.end,
    ensures
        interval@.start <= r <= interval@.end,
{
    rand::rng().random_range(interval.clone())
}

/// Calls `rand::RngExt::random_range` on `rand::rng()` with the half-open
/// range `0..bound`: the result lies below `bound`; an empty range panics,
/// which the `requires` rules out. Which value comes out is chance.
#[verifier::external_body]
pub(crate) fn random_below(bound: u64) -> (r: u64)
    requires
        bound > 0,
    ensures
        r < bound,
{
    rand::rng().random_range(0..bound)
}

/// Calls `rand::seq::IndexedRandom::choose` on `items` with `rand::rng()`:
/// rand's source returns `None` exactly for an empty slice and otherwise a
/// reference to one of its elements. Which one is chance.
#[verifier::external_body]
pub(crate) fn choose_from<P>(items: &[P]) -> (r: Option<&P>)
    ensures
        r is None <==> items@.len() == 0,
        r matches Some(p) ==> exists|i: int| 0 <= i < items@.len() && items@[i] == *p,
{
    items.choose(&mut rand::rng())
}

} // verus!
