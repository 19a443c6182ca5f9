//! Random draws, made by the `rand` crate on the thread's generator.

use rand::Rng;
use vstd::prelude::*;

verus! {

/// A number drawn from `low..high` by `rand::Rng::gen_range` on the
/// generator that `rand::thread_rng` hands out: whatever is drawn lies in
/// that range. This holds wherever the system can seed the generator.
#[verifier::external_body]
pub(crate) fn random_between(low: i32, high: i32) -> (r: i32)
    requires
        low < high,
    ensures
        low <= r < high,
{
    rand::thread_rng().gen_range(low..high)
}

/// A coin thrown by `rand::Rng::gen_ratio` on the generator that
/// `rand::thread_rng` hands out, with `numerator` chances in `denominator`
/// of `true`. With no chance it falls `false` and with every chance `true`;
/// nothing else is promised of how it falls.
#[verifier::external_body]
pub(crate) fn random_chance(numerator: u32, denominator: u32) -> (r: bool)
    requires
        0 < denominator,
        numerator <= denominator,
    ensures
        numerator == 0 ==> !r,
        numerator == denominator ==> r,
{
    rand::thread_rng().gen_ratio(numerator, denominator)
}

} // verus!
