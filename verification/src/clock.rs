//! The operating system's clock, as seconds since the Unix epoch.
use vstd::prelude::*;

verus! {

#[verifier::external_type_specification]
#[verifier::external_body]
pub struct ExSystemTime(std::time::SystemTime);

#[verifier::external_type_specification]
#[verifier::external_body]
pub struct ExSystemTimeError(std::time::SystemTimeError);

/// Calls `SystemTime::now`; what it returns is the machine's time, so
/// nothing is stated of it.
#[verifier::external_body]
fn system_time_now() -> (r: std::time::SystemTime) {
    std::time::SystemTime::now()
}

/// Calls `SystemTime::duration_since` with the Unix epoch; it fails for a
/// time before the epoch.
#[verifier::external_body]
fn since_unix_epoch(time: &std::time::SystemTime) -> (r: Result<
    std::time::Duration,
    std::time::SystemTimeError,
>) {
    time.duration_since(std::time::UNIX_EPOCH)
}

/// Calls `Duration::as_secs`: the whole seconds of the duration.
#[verifier::external_body]
fn whole_seconds(duration: &std::time::Duration) -> (r: u64) {
    duration.as_secs()
}

/// The current time in whole seconds since the Unix epoch, or the error of
/// a clock set before the epoch. Nothing more can be said of a reading of
/// the machine's clock.
pub fn unix_seconds_now() -> (r: Result<u64, std::time::SystemTimeError>) {
    let now = system_time_now();
    match since_unix_epoch(&now) {
        Ok(duration) => Ok(whole_seconds(&duration)),
        Err(error) => Err(error),
    }
}

} // verus!
