//! Monotonic time stamps and durations carried through the library.

use vstd::prelude::*;
use std::time::{Duration, Instant};

verus! {

/// `std::time::Instant`, carried through the library as an opaque value.
#[verifier::external_type_specification]
#[verifier::external_body]
pub struct ExInstant(Instant);

/// Calls `Instant::now()`. It reads the monotonic clock, so nothing is
/// claimed of the value returned.
#[verifier::external_body]
pub fn now() -> Instant {
    Instant::now()
}

/// The duration `Duration::from_secs` gives for a number of seconds.
pub uninterp spec fn secs_duration(secs: u64) -> Duration;

/// The duration `Duration::from_millis` gives for a number of milliseconds.
pub uninterp spec fn millis_duration(millis: u64) -> Duration;

/// Calls `Duration::from_secs`, which depends on its argument alone (and
/// never panics): the result is named, not described.
#[verifier::external_body]
pub fn duration_from_secs(secs: u64) -> (r: Duration)
    ensures
        r == secs_duration(secs),
{
    Duration::from_secs(secs)
}

/// Calls `Duration::from_millis`, which depends on its argument alone (and
/// never panics): the result is named, not described.
#[verifier::external_body]
pub fn duration_from_millis(millis: u64) -> (r: Duration)
    ensures
        r == millis_duration(millis),
{
    Duration::from_millis(millis)
}

} // verus!
