use vstd::prelude::*;

use std::time::{Duration, SystemTime, SystemTimeError, UNIX_EPOCH};

use crate::text::{decimal_string, digits_of};

verus! {

/// The clock type of std, carried through as an opaque value.
#[verifier::external_type_specification]
#[verifier::external_body]
pub struct ExSystemTime(std::time::SystemTime);

/// The error std gives for a time before the epoch, carried through as an opaque value.
#[verifier::external_type_specification]
#[verifier::external_body]
pub struct ExSystemTimeError(std::time::SystemTimeError);

/// Reads the system clock with `SystemTime::now`. Nothing is claimed of the reading,
/// which depends on the moment of the call.
#[verifier::external_body]
fn clock_now() -> (t: SystemTime) {
    SystemTime::now()
}

/// The time from `UNIX_EPOCH` to `t`, by `SystemTime::duration_since`: an error when
/// `t` lies before the epoch. Nothing is claimed of which, since `t` is opaque here.
#[verifier::external_body]
fn since_epoch(t: &SystemTime) -> (d: Result<Duration, SystemTimeError>) {
    t.duration_since(UNIX_EPOCH)
}

/// The whole seconds of a duration, by `Duration::as_secs`. Nothing is claimed of the
/// value, since the duration is opaque here.
#[verifier::external_body]
fn whole_seconds(d: &Duration) -> (s: u64) {
    d.as_secs()
}

/// The whole seconds since the Unix epoch by the system clock, or `None` when the
/// clock is set before the epoch.
fn seconds_since_epoch() -> (t: Option<u64>) {
    match since_epoch(&clock_now()) {
        Ok(d) => Some(whole_seconds(&d)),
        Err(_) => None,
    }
}

/// A reading of the clock as a 32-bit timestamp: the seconds cut to their low 32
/// bits, and 0 for a clock set before the epoch.
pub fn timestamp_from_secs(secs: Option<u64>) -> (t: u32)
    ensures
        t == match secs {
            Some(s) => s as u32,
            None => 0u32,
        },
{
    match secs {
        Some(s) => s as u32,
        None => 0,
    }
}

/// The current time in seconds since the Unix epoch, cut to 32 bits. A clock set
/// before the epoch reads as 0.
pub fn unix_epoch_timestamp_u32() -> (t: u32) {
    timestamp_from_secs(seconds_since_epoch())
}

/// The current time in seconds since the Unix epoch, written in decimal.
pub fn unix_epoch_timestamp_str() -> (s: String)
    ensures
        exists|t: u32| s@ == #[trigger] digits_of(t as nat),
{
    let t = unix_epoch_timestamp_u32();
    decimal_string(t)
}

} // verus!
