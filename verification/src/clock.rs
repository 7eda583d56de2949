//! The system clock, as far as the service reads it.

use std::time::Duration;
use std::time::SystemTime;
use std::time::SystemTimeError;
use vstd::prelude::*;

verus! {

/// `std::time::SystemTime`, a reading of the system clock. Nothing is known of
/// a value of it.
#[verifier::external_type_specification]
#[verifier::external_body]
pub struct ExSystemTime(SystemTime);

/// `std::time::SystemTimeError`, the failure of a comparison of two clock
/// readings.
#[verifier::external_type_specification]
#[verifier::external_body]
pub struct ExSystemTimeError(SystemTimeError);

/// `SystemTime::now` reads the clock. Nothing is claimed of the reading.
pub assume_specification[ SystemTime::now ]() -> (now: SystemTime)
;

/// `SystemTime::duration_since`, asked for the time from the Unix epoch to
/// `time`. It fails when `time` lies before the epoch. Nothing is claimed of
/// the outcome.
#[verifier::external_body]
fn since_epoch(time: &SystemTime) -> (elapsed: Result<Duration, SystemTimeError>) {
    time.duration_since(SystemTime::UNIX_EPOCH)
}

/// `Duration::as_millis` gives the whole milliseconds in a duration. Nothing
/// is claimed of the number.
pub assume_specification[ Duration::as_millis ](duration: &Duration) -> (millis: u128)
;

/// `Duration::as_secs` gives the whole seconds in a duration. Nothing is
/// claimed of the number.
pub assume_specification[ Duration::as_secs ](duration: &Duration) -> (seconds: u64)
;

/// The low 64 bits of a millisecond count.
pub open spec fn low_millis(millis: u128) -> u64 {
    (millis % 0x1_0000_0000_0000_0000) as u64
}

/// Narrows a millisecond count to 64 bits, keeping the low bits.
pub fn narrow_millis(millis: u128) -> (low: u64)
    ensures
        low == low_millis(millis),
{
    (millis % 0x1_0000_0000_0000_0000) as u64
}

/// Whole milliseconds since the Unix epoch by the system clock, or `None`
/// when the clock is set before the epoch.
pub(crate) fn current_millis() -> Option<u64> {
    let now = SystemTime::now();
    match since_epoch(&now) {
        Ok(elapsed) => Some(narrow_millis(elapsed.as_millis())),
        Err(_) => None,
    }
}

/// Whole seconds since the Unix epoch by the system clock, or `None` when the
/// clock is set before the epoch.
pub(crate) fn current_seconds() -> Option<u64> {
    let now = SystemTime::now();
    match since_epoch(&now) {
        Ok(elapsed) => Some(elapsed.as_secs()),
        Err(_) => None,
    }
}

/// What a clock reading counts as: itself, or the epoch where the clock is
/// set before it.
pub open spec fn reading_or_epoch(reading: Option<u64>) -> u64 {
    match reading {
        Some(value) => value,
        None => 0,
    }
}

/// Takes a clock set before the Unix epoch for one that reads the epoch
/// itself.
pub fn or_epoch(reading: Option<u64>) -> (value: u64)
    ensures
        value == reading_or_epoch(reading),
{
    match reading {
        Some(value) => value,
        None => 0,
    }
}

} // verus!
