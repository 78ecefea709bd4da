//! Reading the clock.

use vstd::prelude::*;

use crate::error::EgressError;

verus! {

/// The system clock's notion of a point in time.
#[verifier::external_type_specification]
#[verifier::external_body]
pub struct ExSystemTime(std::time::SystemTime);

/// Reads the system clock with `std::time::SystemTime::now`.
///
/// Nothing is claimed of the result: it is the time at the call.
#[verifier::external_body]
fn system_time_now() -> (now: std::time::SystemTime) {
    std::time::SystemTime::now()
}

/// The time elapsed from the Unix epoch to `now`, with
/// `std::time::SystemTime::duration_since`; on failure (a clock set before the
/// epoch) gives the text of the error.
///
/// Nothing is claimed of the result: it depends on the clock.
#[verifier::external_body]
fn elapsed_since_epoch(now: &std::time::SystemTime) -> (elapsed: Result<std::time::Duration, String>) {
    match now.duration_since(std::time::UNIX_EPOCH) {
        Ok(elapsed) => Ok(elapsed),
        Err(error) => Err(error.to_string()),
    }
}

/// Whole milliseconds of a duration, with `std::time::Duration::as_millis`.
///
/// Nothing is claimed of the result, which is a count of the opaque duration.
#[verifier::external_body]
fn duration_millis(duration: &std::time::Duration) -> (millis: u128) {
    duration.as_millis()
}

/// Milliseconds as an `i64`, saturating at `i64::MAX`.
fn saturating_millis(millis: u128) -> (ms: i64)
    ensures
        millis <= i64::MAX ==> ms == millis,
        millis > i64::MAX ==> ms == i64::MAX,
{
    if millis <= 9_223_372_036_854_775_807u128 {
        millis as i64
    } else {
        i64::MAX
    }
}

/// Current time in milliseconds of the Unix epoch.
///
/// Timestamps are made in one place, so that they do not depend on clocks read
/// from different layers. Which instant is returned depends on the clock; it is
/// never negative.
///
/// # Errors
///
/// Returns an internal error when the system clock is set before the Unix epoch.
pub fn now_unix_ms() -> (result: Result<i64, EgressError>)
    ensures
        result matches Ok(ms) ==> ms >= 0,
        result matches Err(e) ==> e is Internal,
{
    let now = system_time_now();
    match elapsed_since_epoch(&now) {
        Ok(elapsed) => Ok(saturating_millis(duration_millis(&elapsed))),
        Err(message) => Err(EgressError::internal(message)),
    }
}

} // verus!
