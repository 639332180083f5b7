//! The wall clock that stamps new blocks.

use std::time::{Duration, SystemTime, UNIX_EPOCH};
use vstd::prelude::*;

verus! {

/// `std::time::SystemTime`: a reading of the system clock, which the library
/// carries from one call to the next without looking inside.
#[verifier::external_type_specification]
#[verifier::external_body]
pub struct ExSystemTime(SystemTime);

/// `std::time::SystemTime::now`: reads the system clock.
///
/// Trusted, not proved, and nothing is claimed of the reading: two readings
/// may differ in either direction.
pub assume_specification[ SystemTime::now ]() -> SystemTime;

/// `std::time::Duration::as_millis`: the whole milliseconds in a duration.
///
/// Trusted, not proved; nothing is claimed of the number.
pub assume_specification[ Duration::as_millis ](duration: &Duration) -> u128;

/// Calls `std::time::SystemTime::duration_since` with the Unix epoch: the
/// time that has passed between the epoch and `time`, or nothing where `time`
/// lies before the epoch.
///
/// Trusted, not proved; nothing is claimed of the outcome.
#[verifier::external_body]
fn since_unix_epoch(time: &SystemTime) -> Option<Duration> {
    time.duration_since(UNIX_EPOCH).ok()
}

/// The milliseconds that have passed since the Unix epoch, by the system
/// clock; nothing where the clock is set before the epoch.
pub(crate) fn unix_time_millis() -> Option<u128> {
    let now = SystemTime::now();
    match since_unix_epoch(&now) {
        Some(elapsed) => Some(elapsed.as_millis()),
        None => None,
    }
}

} // verus!
