//! The current time as a Unix timestamp.
use std::time::{Duration, SystemTime, SystemTimeError};
use vstd::prelude::*;

verus! {

/// The wall-clock time of `std`.
#[verifier::external_type_specification]
#[verifier::external_body]
pub struct ExSystemTime(std::time::SystemTime);

/// The error of `SystemTime::duration_since` for a time before the reference.
#[verifier::external_type_specification]
#[verifier::external_body]
pub struct ExSystemTimeError(std::time::SystemTimeError);

/// Calls `SystemTime::now`. Nothing is stated: the result is the clock's reading.
#[verifier::external_body]
fn system_now() -> SystemTime {
    SystemTime::now()
}

/// Calls `SystemTime::duration_since` with `SystemTime::UNIX_EPOCH` as the
/// reference. Nothing is stated: it fails when the clock reads before 1970.
#[verifier::external_body]
fn since_unix_epoch(now: &SystemTime) -> Result<Duration, SystemTimeError> {
    now.duration_since(SystemTime::UNIX_EPOCH)
}

/// Calls `Duration::as_secs`. Nothing is stated: `Duration` is opaque here.
#[verifier::external_body]
fn whole_seconds(duration: &Duration) -> u64 {
    duration.as_secs()
}

/// The current time in whole seconds since the Unix epoch; `Err(0)` when the
/// clock reads before the epoch.
pub fn current_unix_timestamp() -> (res: Result<u64, u64>)
    ensures
        res matches Err(code) ==> code == 0,
{
    let now = system_now();
    match since_unix_epoch(&now) {
        Ok(duration) => Ok(whole_seconds(&duration)),
        Err(_) => Err(0),
    }
}

} // verus!
