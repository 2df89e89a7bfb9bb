//! The wall clock, read through std.

use vstd::prelude::*;
use core::time::Duration;
use std::time::SystemTime;
use std::time::SystemTimeError;

verus! {

#[verifier::external_type_specification]
#[verifier::external_body]
pub struct ExSystemTime(SystemTime);

#[verifier::external_type_specification]
#[verifier::external_body]
pub struct ExSystemTimeError(SystemTimeError);

/// Trusted: `SystemTime::now`. Nothing is claimed of the time it reads.
#[verifier::external_body]
pub(crate) fn system_now() -> SystemTime {
    SystemTime::now()
}

/// Trusted: `SystemTime::duration_since` against `UNIX_EPOCH`. Nothing is claimed of
/// the duration, which depends on the clock.
#[verifier::external_body]
pub(crate) fn since_unix_epoch(t: &SystemTime) -> Result<Duration, SystemTimeError> {
    t.duration_since(std::time::UNIX_EPOCH)
}

/// Trusted: `Duration::as_secs`, the whole seconds of the duration. The duration is
/// opaque here, so nothing is claimed of the count.
#[verifier::external_body]
pub(crate) fn duration_secs(d: &Duration) -> u64 {
    d.as_secs()
}

/// Trusted: `Duration::subsec_nanos`, the nanoseconds past the whole seconds, which std
/// documents as always less than one billion.
#[verifier::external_body]
pub(crate) fn duration_subsec_nanos(d: &Duration) -> (nanos: u32)
    ensures
        nanos < 1_000_000_000,
{
    d.subsec_nanos()
}

/// A reading of the wall clock against the Unix epoch: the whole seconds and the
/// nanoseconds past them, or `None` where the clock reads earlier than the epoch.
pub open spec fn valid_reading(reading: Option<(u64, u32)>) -> bool {
    match reading {
        Some((_, nanos)) => nanos < 1_000_000_000,
        None => true,
    }
}

/// The whole milliseconds of a reading; 0 for none.
pub open spec fn reading_millis(reading: Option<(u64, u32)>) -> int {
    match reading {
        Some((secs, nanos)) => secs * 1000 + nanos / 1_000_000,
        None => 0,
    }
}

/// The whole microseconds of a reading, cut to 64 bits; 0 for none.
pub open spec fn reading_micros(reading: Option<(u64, u32)>) -> int {
    match reading {
        Some((secs, nanos)) => (secs * 1_000_000 + nanos / 1000) % 0x1_0000_0000_0000_0000,
        None => 0,
    }
}

/// Reads the wall clock against the Unix epoch.
pub(crate) fn unix_reading() -> (reading: Option<(u64, u32)>)
    ensures
        valid_reading(reading),
{
    let now = system_now();
    match since_unix_epoch(&now) {
        Ok(d) => Some((duration_secs(&d), duration_subsec_nanos(&d))),
        Err(_) => None,
    }
}

/// The whole milliseconds of a clock reading, as `Duration::as_millis` counts them;
/// 0 for none.
pub fn unix_millis(reading: Option<(u64, u32)>) -> (ms: u128)
    ensures
        ms == reading_millis(reading),
{
    match reading {
        Some((secs, nanos)) => secs as u128 * 1000 + (nanos / 1_000_000) as u128,
        None => 0,
    }
}

/// The whole microseconds of a clock reading, as `Duration::as_micros` counts them,
/// cut to 64 bits; 0 for none.
pub fn unix_micros(reading: Option<(u64, u32)>) -> (us: u64)
    ensures
        us == reading_micros(reading),
{
    match reading {
        Some((secs, nanos)) => {
            let total: u128 = secs as u128 * 1_000_000 + (nanos / 1000) as u128;
            (total % 0x1_0000_0000_0000_0000u128) as u64
        },
        None => 0,
    }
}

} // verus!
