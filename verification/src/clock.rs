//! The wall clock, read through `std::time`.

use std::time::{Duration, SystemTime, SystemTimeError};
use vstd::prelude::*;

verus! {

/// `std::time::SystemTime`, a reading of the system clock. Nothing inside it
/// is visible here.
#[verifier::external_type_specification]
#[verifier::external_body]
pub struct ExSystemTime(SystemTime);

/// `std::time::SystemTimeError`, the error of the two functions below that
/// measure the time between two readings. Nothing inside it is visible here.
#[verifier::external_type_specification]
#[verifier::external_body]
pub struct ExSystemTimeError(SystemTimeError);

/// `SystemTime::now` reads the system clock. Nothing is claimed of the instant
/// it returns.
pub assume_specification[ SystemTime::now ]() -> (now: SystemTime);

/// `SystemTime::duration_since` gives the time that passed from `earlier` to
/// `time`, or an error where `earlier` is the later of the two. Nothing is
/// claimed of the result.
pub assume_specification[ SystemTime::duration_since ](
    time: &SystemTime,
    earlier: SystemTime,
) -> (passed: Result<Duration, SystemTimeError>);

/// `SystemTime::elapsed` gives the time that passed from `time` to the
/// present reading of the clock, or an error where the clock has gone back
/// behind `time`. Nothing is claimed of the result.
pub assume_specification[ SystemTime::elapsed ](time: &SystemTime) -> (passed: Result<
    Duration,
    SystemTimeError,
>);

/// `Duration::as_secs` gives the whole seconds of a duration. Nothing is
/// claimed of the number.
pub assume_specification[ Duration::as_secs ](duration: &Duration) -> (seconds: u64);

/// `Duration::as_millis` gives the whole milliseconds of a duration. Nothing
/// is claimed of the number.
pub assume_specification[ Duration::as_millis ](duration: &Duration) -> (millis: u128);

/// The Unix epoch, 1970-01-01 00:00:00 UTC: the constant
/// `SystemTime::UNIX_EPOCH`.
#[verifier::external_body]
fn unix_epoch() -> (epoch: SystemTime) {
    SystemTime::UNIX_EPOCH
}

/// The system clock could not be read as a time since the Unix epoch.
#[derive(Clone, Copy, Debug, PartialEq, Eq)]
pub struct ClockError;

/// The present time in whole seconds since the Unix epoch, or an error where
/// the clock stands before the epoch. Nothing can be promised of a reading of
/// the clock: what depends on it is stated for every value it may have.
pub fn get_current_timestamp() -> (now: Result<u64, ClockError>) {
    match SystemTime::now().duration_since(unix_epoch()) {
        Ok(since_epoch) => Ok(since_epoch.as_secs()),
        Err(_) => Err(ClockError),
    }
}

} // verus!
