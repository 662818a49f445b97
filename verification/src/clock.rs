//! The system clock, read as a count of microseconds since the Unix epoch.
use std::time::{Duration, SystemTime, SystemTimeError, UNIX_EPOCH};
use vstd::prelude::*;

verus! {

/// `std::time::SystemTime`, a reading of the system clock.  Nothing is known
/// of a value of it.
#[verifier::external_type_specification]
#[verifier::external_body]
pub struct ExSystemTime(SystemTime);

/// `std::time::SystemTimeError`, the error of a reading that lies before the
/// instant it is measured from.  Nothing is known of a value of it.
#[verifier::external_type_specification]
#[verifier::external_body]
pub struct ExSystemTimeError(SystemTimeError);

/// `SystemTime::now` reads the clock; nothing is promised of the reading.
pub assume_specification[ SystemTime::now ]() -> (now: SystemTime);

/// `SystemTime::duration_since` measures the time from `earlier` to `this`,
/// or fails if `earlier` is the later of the two; nothing is promised of the
/// outcome.
pub assume_specification[ SystemTime::duration_since ](
    this: &SystemTime,
    earlier: SystemTime,
) -> (elapsed: Result<Duration, SystemTimeError>);

/// `Duration::as_micros` counts the whole microseconds in a duration; nothing
/// is promised of the count.
pub assume_specification[ Duration::as_micros ](this: &Duration) -> (micros: u128);

/// The constant `std::time::UNIX_EPOCH`.
#[verifier::external_body]
fn unix_epoch() -> (epoch: SystemTime) {
    UNIX_EPOCH
}

/// The 64-bit count that stands for a measurement of the time since the
/// epoch: the measured count of microseconds, or the largest 64-bit count if
/// that is smaller, or zero where the clock stands before the epoch and there
/// is no measurement.
pub open spec fn micros_of(measured: Option<u128>) -> u64 {
    match measured {
        None => 0,
        Some(micros) => if micros > u64::MAX {
            u64::MAX
        } else {
            micros as u64
        },
    }
}

/// Brings a measurement of the time since the epoch into 64 bits.
pub fn saturate_micros(measured: Option<u128>) -> (micros: u64)
    ensures
        micros == micros_of(measured),
{
    match measured {
        None => 0,
        Some(micros) => if micros > u64::MAX as u128 {
            u64::MAX
        } else {
            micros as u64
        },
    }
}

/// Reads the system clock once and returns the microseconds since the Unix
/// epoch, as `saturate_micros` brings them into 64 bits.
pub fn now_micros() -> u64 {
    let now = SystemTime::now();
    let measured = match now.duration_since(unix_epoch()) {
        Ok(elapsed) => Some(elapsed.as_micros()),
        Err(_) => None,
    };
    saturate_micros(measured)
}

} // verus!
