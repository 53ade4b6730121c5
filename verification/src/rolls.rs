//! Random draws for the transition trials and the Panic routine, made
//! through the `rand` crate. Nothing is promised of the values drawn beyond
//! their range: every caller must behave correctly for every outcome.

use vstd::prelude::*;

verus! {

/// Relies on rand 0.8: `Rng::gen_ratio` on `thread_rng` decides a Bernoulli
/// trial that fires with probability `numerator / denominator`. The call
/// panics exactly when `denominator == 0` or `numerator > denominator`
/// (`Bernoulli::from_ratio` rejects those), so the `requires` excludes them;
/// nothing can be promised of the outcome itself.
#[verifier::external_body]
pub(crate) fn bernoulli(numerator: u32, denominator: u32) -> (fired: bool)
    requires
        0 < denominator,
        numerator <= denominator,
{
    rand::Rng::gen_ratio(&mut rand::thread_rng(), numerator, denominator)
}

/// Relies on rand 0.8: `Rng::gen_range` on `thread_rng` draws uniformly from
/// `0..bound`. The call panics on an empty range, so the `requires` excludes
/// `bound == 0`; the result lies in the half-open range, which is all the
/// documentation promises.
#[verifier::external_body]
pub(crate) fn pick_index(bound: u32) -> (i: u32)
    requires
        0 < bound,
    ensures
        i < bound,
{
    rand::Rng::gen_range(&mut rand::thread_rng(), 0..bound)
}

} // verus!
