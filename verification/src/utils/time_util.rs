//! Wall-clock time in milliseconds since the Unix epoch.

use std::time::{Duration, SystemTime, SystemTimeError, UNIX_EPOCH};
use vstd::prelude::*;

verus! {

#[verifier::external_type_specification]
#[verifier::external_body]
pub struct ExSystemTime(SystemTime);

#[verifier::external_type_specification]
#[verifier::external_body]
pub struct ExSystemTimeError(SystemTimeError);

/// `SystemTime::now`: the machine's clock at the moment of the call. Nothing
/// is claimed of the value.
#[verifier::external_body]
fn system_now() -> SystemTime {
    SystemTime::now()
}

/// `SystemTime::duration_since` against `UNIX_EPOCH`: the time elapsed since
/// the epoch, or an error when the clock reads earlier than the epoch. Nothing
/// is claimed of the value.
#[verifier::external_body]
fn since_epoch(instant: &SystemTime) -> Result<Duration, SystemTimeError> {
    instant.duration_since(UNIX_EPOCH)
}

/// `Duration::as_millis`: the whole milliseconds in a duration. Nothing is
/// claimed of the value, since a duration is opaque here.
#[verifier::external_body]
fn whole_millis(elapsed: &Duration) -> u128 {
    elapsed.as_millis()
}

/// Milliseconds since the Unix epoch, or the clock's error when it reads
/// earlier than the epoch.
pub fn safely_current_timestamp() -> Result<u128, SystemTimeError> {
    let now = system_now();
    match since_epoch(&now) {
        Ok(elapsed) => Ok(whole_millis(&elapsed)),
        Err(error) => Err(error),
    }
}

/// The timestamp that a reading of the clock stands for: the milliseconds
/// read, or zero where the clock read earlier than the epoch.
pub open spec fn reading_or_epoch(reading: Result<u128, SystemTimeError>) -> u128 {
    match reading {
        Ok(millis) => millis,
        Err(_) => 0,
    }
}

/// Turns a reading of the clock into a timestamp: a clock that reads earlier
/// than the epoch counts as the epoch itself.
pub fn timestamp_or_epoch(reading: Result<u128, SystemTimeError>) -> (timestamp: u128)
    ensures
        timestamp == reading_or_epoch(reading),
{
    match reading {
        Ok(millis) => millis,
        Err(_) => 0,
    }
}

/// Milliseconds since the Unix epoch. A clock that reads earlier than the
/// epoch counts as the epoch itself.
pub fn current_timestamp() -> u128 {
    timestamp_or_epoch(safely_current_timestamp())
}

} // verus!
