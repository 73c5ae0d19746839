//! Randomness, used only for cosmetic choices: which narrative branch to
//! show, which value to display, and how long to pace a step.

use rand::Rng;
use vstd::prelude::*;

verus! {

/// Relies on rand::Rng::gen_range over rand::thread_rng: returns a value of
/// the half-open range `[lo, hi)`; it panics only on an empty range, which
/// the precondition excludes.
#[verifier::external_body]
pub(crate) fn rand_range_u64(lo: u64, hi: u64) -> (r: u64)
    requires
        lo < hi,
    ensures
        lo <= r < hi,
{
    rand::thread_rng().gen_range(lo..hi)
}

/// Relies on rand::Rng::gen_range over rand::thread_rng: returns an index
/// below `n`; it panics only on an empty range, which the precondition
/// excludes.
#[verifier::external_body]
pub(crate) fn rand_index(n: usize) -> (r: usize)
    requires
        n > 0,
    ensures
        r < n,
{
    rand::thread_rng().gen_range(0..n)
}

/// Relies on rand::Rng::gen over rand::thread_rng: a full-range random
/// value, of which nothing is promised.
#[verifier::external_body]
pub(crate) fn rand_u64() -> u64 {
    rand::thread_rng().gen()
}

/// A draw from `[0, 100)`, compared against a percentage threshold by the
/// cosmetic branches.
pub(crate) fn rand_percent() -> (r: u64)
    ensures
        r < 100,
{
    rand_range_u64(0, 100)
}

/// Whether a cosmetic branch gated at `percent` out of one hundred fires.
pub(crate) fn chance(percent: u64) -> bool {
    rand_percent() < percent
}

} // verus!
