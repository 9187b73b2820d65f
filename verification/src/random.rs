//! Random draws, made by `rand` on the thread's generator.

use vstd::prelude::*;
use rand::Rng;

verus! {

/// Calls `rand::Rng::gen_ratio` on `rand::thread_rng()`: a coin that shows
/// `true` with the odds `numerator` in `denominator`. Trusted; nothing is
/// claimed of the outcome. The contract leaves out the arguments on which
/// `gen_ratio` panics.
#[verifier::external_body]
pub(crate) fn random_ratio(numerator: u32, denominator: u32) -> (r: bool)
    requires
        denominator > 0,
        numerator <= denominator,
{
    rand::thread_rng().gen_ratio(numerator, denominator)
}

/// Calls `rand::Rng::gen_range` on `rand::thread_rng()` with the half-open
/// range `low..high`. Trusted: the value drawn lies in the range. The
/// contract leaves out the empty range, on which `gen_range` panics.
#[verifier::external_body]
pub(crate) fn random_in_range(low: i16, high: i16) -> (r: i16)
    requires
        low < high,
    ensures
        low <= r < high,
{
    rand::thread_rng().gen_range(low..high)
}

} // verus!
