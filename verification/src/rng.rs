//! Randomized jitter.
//!
//! A few states draw small random values: a wait time is jittered inside a
//! configured window, and some recovery states roll a biased coin.  Nothing
//! is ever promised about which value comes out — callers state what holds
//! of every outcome.

use vstd::prelude::*;

verus! {

/// Relies on rand::random_range over `min..max`: the sampled value lies in
/// the half-open range; the call panics on an empty range, which the
/// precondition rules out.
#[verifier::external_body]
fn random_range_u32(min: u32, max: u32) -> (r: u32)
    requires
        min < max,
    ensures
        min <= r < max,
{
    rand::random_range(min..max)
}

/// Relies on rand::random_ratio: a coin that is true with probability
/// `numerator / denominator`; the call panics when the denominator is zero
/// or smaller than the numerator, which the precondition rules out.
#[verifier::external_body]
pub(crate) fn random_ratio_bool(numerator: u32, denominator: u32) -> (r: bool)
    requires
        0 < denominator,
        numerator <= denominator,
{
    rand::random_ratio(numerator, denominator)
}

/// Jitters a base tick count inside `base - range ..= base + range`,
/// saturating at the ends of the `u32` domain.
pub fn random_wait_ticks(wait_base_ticks: u32, wait_random_range: u32) -> (r: u32)
    ensures
        wait_base_ticks >= wait_random_range ==> r >= wait_base_ticks - wait_random_range,
        r <= wait_base_ticks as int + wait_random_range as int,
{
    let wait_min: u32 = if wait_base_ticks >= wait_random_range {
        wait_base_ticks - wait_random_range
    } else {
        0
    };
    let wait_max: u32 = if wait_base_ticks as u64 + wait_random_range as u64 + 1 <= u32::MAX as u64 {
        wait_base_ticks + wait_random_range + 1
    } else {
        u32::MAX
    };
    if wait_min < wait_max {
        random_range_u32(wait_min, wait_max)
    } else {
        wait_base_ticks
    }
}

} // verus!
