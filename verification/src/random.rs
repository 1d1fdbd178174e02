//! Chance. The two functions here call the `rand` crate; what they promise
//! is taken on trust from that crate.

use vstd::prelude::*;

verus! {

/// A whole number drawn evenly from `lower` up to and including `upper`.
///
/// Calls `rand::Rng::gen_range` with the closed range `lower..=upper` on the
/// generator of `rand::thread_rng`. That function panics on an empty range,
/// which the precondition rules out, and returns a value inside the range;
/// nothing else is claimed of the value.
#[verifier::external_body]
pub(crate) fn uniform_between(lower: i64, upper: i64) -> (r: i64)
    requires
        lower <= upper,
    ensures
        lower <= r <= upper,
{
    rand::Rng::gen_range(&mut rand::thread_rng(), lower..=upper)
}

/// `true` with a chance of `numerator` in `denominator`.
///
/// Calls `rand::Rng::gen_ratio` on the generator of `rand::thread_rng`. That
/// function panics when the denominator is zero or smaller than the
/// numerator, which the precondition rules out. It is documented to always
/// say yes for a ratio of one and always no for a ratio of zero; in between
/// nothing is claimed of the answer.
#[verifier::external_body]
pub(crate) fn chance(numerator: u32, denominator: u32) -> (r: bool)
    requires
        denominator > 0,
        numerator <= denominator,
    ensures
        numerator == denominator ==> r,
        numerator == 0 ==> !r,
{
    rand::Rng::gen_ratio(&mut rand::thread_rng(), numerator, denominator)
}

} // verus!
