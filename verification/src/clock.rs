//! The clock: the current instant and elapsed time, as std reports them.
//! Nothing is stated of what they return; the logic that reads them is
//! stated for every reading.

use std::time::{Duration, Instant};
use vstd::prelude::*;

verus! {

/// std's `Instant`, carried through as an opaque value.
#[verifier::external_type_specification]
#[verifier::external_body]
pub struct ExInstant(Instant);

/// The current instant (std's `Instant::now`). Nothing is stated of it:
/// it is the clock.
#[verifier::external_body]
pub(crate) fn now() -> Instant {
    Instant::now()
}

/// Time elapsed since `at` (std's `Instant::elapsed`). Nothing is stated
/// of it: it reads the clock.
#[verifier::external_body]
pub(crate) fn elapsed(at: &Instant) -> Duration {
    at.elapsed()
}

/// The whole seconds of a duration, as std's `Duration::as_secs` counts
/// them (a function of the duration alone).
pub uninterp spec fn duration_secs(d: Duration) -> u64;

/// The whole milliseconds of a duration, as std's `Duration::as_millis`
/// counts them (a function of the duration alone).
pub uninterp spec fn duration_millis(d: Duration) -> u128;

/// The whole seconds of `d` (std's `Duration::as_secs`): the result is
/// named, not stated.
#[verifier::external_body]
pub(crate) fn whole_secs(d: &Duration) -> (r: u64)
    ensures
        r == duration_secs(*d),
{
    d.as_secs()
}

/// The whole milliseconds of `d` (std's `Duration::as_millis`): the
/// result is named, not stated.
#[verifier::external_body]
pub(crate) fn as_millis(d: &Duration) -> (r: u128)
    ensures
        r == duration_millis(*d),
{
    d.as_millis()
}

} // verus!
