//! The wall clock, read as whole seconds since the Unix epoch.

use std::time::Duration;
use vstd::prelude::*;

verus! {

/// The latest time that is told: the most that a signed 64-bit count of
/// seconds can hold.
pub const LATEST: u64 = 0x7fff_ffff_ffff_ffff;

/// `SystemTime::elapsed` of the standard library, asked of `UNIX_EPOCH`: the
/// time that has passed since the Unix epoch on the machine's clock, or
/// nothing where the clock stands before the epoch. Nothing is claimed of
/// what comes back.
#[verifier::external_body]
fn elapsed_since_epoch() -> (elapsed: Option<Duration>) {
    std::time::UNIX_EPOCH.elapsed().ok()
}

/// `Duration::as_secs` of the standard library: the whole seconds of a span
/// of time. Nothing is claimed of the number that comes back.
#[verifier::external_body]
fn whole_seconds(elapsed: &Duration) -> (seconds: u64) {
    elapsed.as_secs()
}

/// The time that a reading of the clock stands for, in seconds since the Unix
/// epoch. The reading is the seconds that have passed since the epoch, or
/// nothing where the clock stands before it, which counts as the epoch
/// itself. No time later than `LATEST` is told.
pub open spec fn seconds_of(reading: Option<u64>) -> u64 {
    match reading {
        Some(seconds) => if seconds > LATEST {
            LATEST
        } else {
            seconds
        },
        None => 0,
    }
}

/// Turns a reading of the clock into seconds since the Unix epoch.
pub fn epoch_seconds(reading: Option<u64>) -> (seconds: u64)
    ensures
        seconds == seconds_of(reading),
{
    match reading {
        Some(seconds) => if seconds > LATEST {
            LATEST
        } else {
            seconds
        },
        None => 0,
    }
}

/// The current time in seconds since the Unix epoch. A clock that stands
/// before the epoch reads as the epoch itself.
pub fn unix_now() -> (now: u64)
    ensures
        exists|reading: Option<u64>| now == #[trigger] seconds_of(reading),
        now <= LATEST,
{
    let reading: Option<u64> = match elapsed_since_epoch() {
        Some(elapsed) => Some(whole_seconds(&elapsed)),
        None => None,
    };
    epoch_seconds(reading)
}

} // verus!
