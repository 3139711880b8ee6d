//! The wall clock, in whole seconds since the unix epoch.
use vstd::prelude::*;
use std::time::{Duration, SystemTime, SystemTimeError};

verus! {

#[verifier::external_type_specification]
#[verifier::external_body]
pub struct ExSystemTime(SystemTime);

#[verifier::external_type_specification]
#[verifier::external_body]
pub struct ExSystemTimeError(SystemTimeError);

/// Relies on std::time::SystemTime::now: the current wall-clock time.
#[verifier::external_body]
fn clock_now() -> (r: SystemTime) {
    SystemTime::now()
}

/// Relies on std::time::SystemTime::duration_since with the unix epoch: the
/// time elapsed since the epoch, or an error when `t` lies before it.
#[verifier::external_body]
fn since_epoch(t: &SystemTime) -> (r: Result<Duration, SystemTimeError>) {
    t.duration_since(std::time::UNIX_EPOCH)
}

/// Relies on std::time::Duration::as_secs: the whole seconds of a duration.
#[verifier::external_body]
fn whole_seconds(d: &Duration) -> (r: u64) {
    d.as_secs()
}

/// The whole seconds elapsed since the epoch, clamped to zero when the clock
/// stands before it (`None`).
pub fn seconds_or_zero(elapsed: Option<u64>) -> (r: u64)
    ensures
        r == match elapsed {
            Some(s) => s,
            None => 0,
        },
{
    match elapsed {
        Some(s) => s,
        None => 0,
    }
}

/// The current unix time in whole seconds; zero when the clock stands before
/// the epoch.
pub fn now_unix() -> (r: u64) {
    let t = clock_now();
    let elapsed = match since_epoch(&t) {
        Ok(d) => Some(whole_seconds(&d)),
        Err(_) => None,
    };
    seconds_or_zero(elapsed)
}

} // verus!
