//! Readings of the monotonic clock, for timing.  What the clock shows is not
//! stated anywhere: timings are carried, never reasoned about.

use vstd::prelude::*;

verus! {

/// The clock readings of the standard library, carried opaquely.
#[verifier::external_type_specification]
#[verifier::external_body]
pub struct ExInstant(std::time::Instant);

/// Wraps `Instant::now`.  Which instant it returns is not stated.
#[verifier::external_body]
pub(crate) fn instant_now() -> std::time::Instant {
    std::time::Instant::now()
}

/// Wraps `Instant::elapsed`.  How much time has passed is not stated.
#[verifier::external_body]
pub(crate) fn instant_elapsed(start: &std::time::Instant) -> std::time::Duration {
    start.elapsed()
}

/// Wraps `Instant::duration_since` (zero when `start` is later).  The value
/// is not stated.
#[verifier::external_body]
fn duration_between(start: &std::time::Instant, end: &std::time::Instant) -> std::time::Duration {
    end.duration_since(*start)
}

/// Wraps `Duration::as_nanos`.  The value is not stated.
#[verifier::external_body]
fn duration_nanos(d: &std::time::Duration) -> u128 {
    d.as_nanos()
}

/// Wraps `Duration::as_secs`.  The value is not stated.
#[verifier::external_body]
fn duration_secs(d: &std::time::Duration) -> u64 {
    d.as_secs()
}

/// The whole nanoseconds from `start` to `end`.
pub(crate) fn nanos_between(start: &std::time::Instant, end: &std::time::Instant) -> u128 {
    let d = duration_between(start, end);
    duration_nanos(&d)
}

/// The wall-clock readings of the standard library, carried opaquely.
#[verifier::external_type_specification]
#[verifier::external_body]
pub struct ExSystemTime(std::time::SystemTime);

/// The error of a wall-clock reading before the Unix epoch.
#[verifier::external_type_specification]
#[verifier::external_body]
pub struct ExSystemTimeError(std::time::SystemTimeError);

/// Wraps `SystemTime::now`.  Which time it returns is not stated.
#[verifier::external_body]
fn system_time_now() -> std::time::SystemTime {
    std::time::SystemTime::now()
}

/// Wraps `SystemTime::duration_since`, measured from the Unix epoch: an
/// error when `t` is before it.  The value is not stated.
#[verifier::external_body]
fn since_unix_epoch(t: &std::time::SystemTime) -> Result<std::time::Duration, std::time::SystemTimeError> {
    t.duration_since(std::time::UNIX_EPOCH)
}

/// The wall clock in whole seconds since the Unix epoch, zero when the
/// clock is before the epoch.
pub(crate) fn unix_timestamp_now() -> u64 {
    let now = system_time_now();
    match since_unix_epoch(&now) {
        Ok(d) => duration_secs(&d),
        Err(_) => 0,
    }
}

} // verus!
