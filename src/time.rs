//! Wall-clock timestamps for response bodies.
use std::time::{Duration, SystemTime, SystemTimeError};
use vstd::prelude::*;

verus! {

#[verifier::external_type_specification]
#[verifier::external_body]
pub struct ExSystemTime(SystemTime);

#[verifier::external_type_specification]
#[verifier::external_body]
pub struct ExSystemTimeError(SystemTimeError);

/// Relies on `SystemTime::now`: the current wall-clock time, of which nothing
/// is known.
pub assume_specification[ SystemTime::now ]() -> SystemTime;

/// Relies on `SystemTime::duration_since` against the Unix epoch: the time
/// elapsed since the epoch, or an error where `t` lies before it.
#[verifier::external_body]
fn since_unix_epoch(t: &SystemTime) -> Result<Duration, SystemTimeError> {
    t.duration_since(SystemTime::UNIX_EPOCH)
}

/// Relies on `Duration::as_millis`: the whole milliseconds of a duration.
pub assume_specification[ Duration::as_millis ](d: &Duration) -> u128;

/// Milliseconds since the Unix epoch, or the error of a clock set before it.
pub fn get_timestamp() -> Result<u128, SystemTimeError> {
    let now = SystemTime::now();
    match since_unix_epoch(&now) {
        Ok(d) => Ok(d.as_millis()),
        Err(e) => Err(e),
    }
}

/// Milliseconds since the Unix epoch; a clock set before the epoch reads as
/// zero.
pub fn must_get_timestamp() -> u128 {
    match get_timestamp() {
        Ok(t) => t,
        Err(_) => 0,
    }
}

} // verus!
