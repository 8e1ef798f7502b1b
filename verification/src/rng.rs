use vstd::prelude::*;

use rand::Rng;

verus! {

/// Draws `true` with probability `numerator / denominator` from the
/// thread-local generator (`rand::Rng::gen_ratio` on `rand::thread_rng()`).
/// As `rand` documents and its source shows, a zero numerator always gives
/// `false` and a numerator equal to the denominator always gives `true`;
/// every other outcome is left open, since it rests on chance.
#[verifier::external_body]
pub(crate) fn chance(numerator: u32, denominator: u32) -> (hit: bool)
    requires
        0 < denominator,
        numerator <= denominator,
    ensures
        numerator == 0 ==> !hit,
        numerator == denominator ==> hit,
{
    rand::thread_rng().gen_ratio(numerator, denominator)
}

/// Draws an index uniformly from `0..bound` with the thread-local generator
/// (`rand::Rng::gen_range` on `rand::thread_rng()`). Only that the index lies
/// in the range is stated: which one comes rests on chance.
#[verifier::external_body]
pub(crate) fn random_index(bound: usize) -> (index: usize)
    requires
        0 < bound,
    ensures
        index < bound,
{
    rand::thread_rng().gen_range(0..bound)
}

} // verus!
