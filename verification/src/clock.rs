//! The wall clock from which outgoing events get their timestamp.

use std::time::{Duration, SystemTime, SystemTimeError, UNIX_EPOCH};
use vstd::prelude::*;

verus! {

/// `std::time::SystemTime`, a reading of the system clock. Nothing is known of what a
/// value holds.
#[verifier::external_type_specification]
#[verifier::external_body]
pub struct ExSystemTime(SystemTime);

/// `std::time::SystemTimeError`, which `SystemTime::duration_since` returns where the
/// second reading is later than the first. Nothing is known of what a value holds.
#[verifier::external_type_specification]
#[verifier::external_body]
pub struct ExSystemTimeError(SystemTimeError);

/// The whole seconds of a duration, as `Duration::as_secs` gives them.
pub uninterp spec fn whole_secs(duration: Duration) -> u64;

/// The part of a duration that is less than a second, in nanoseconds, as
/// `Duration::subsec_nanos` gives it.
pub uninterp spec fn subsec_nanos(duration: Duration) -> u32;

/// The nanoseconds in a second.
pub const NANOS_PER_SEC: u32 = 1_000_000_000;

/// The whole milliseconds in `secs` seconds and `nanos` nanoseconds. What is left of a
/// millisecond is cut off.
pub open spec fn millis_in(secs: u64, nanos: u32) -> nat {
    (secs * 1000 + nanos / 1_000_000) as nat
}

/// The timestamp that belongs to a clock whose distance from the Unix epoch was read
/// as `elapsed`: the whole milliseconds of the distance, or `None` where the reading
/// failed because the clock stands before the epoch.
pub open spec fn timestamp_of(elapsed: Result<Duration, SystemTimeError>) -> Option<u128> {
    match elapsed {
        Ok(duration) => Some(millis_in(whole_secs(duration), subsec_nanos(duration)) as u128),
        Err(_) => None,
    }
}

/// Calls `SystemTime::now`. The reading depends on the machine's clock, so nothing is
/// claimed of it.
#[verifier::external_body]
fn system_time_now() -> SystemTime {
    SystemTime::now()
}

/// Calls `SystemTime::duration_since` on `time` with `UNIX_EPOCH`. It returns an error
/// where `time` lies before the epoch; nothing is claimed of which case comes back.
#[verifier::external_body]
fn since_unix_epoch(time: &SystemTime) -> Result<Duration, SystemTimeError> {
    time.duration_since(UNIX_EPOCH)
}

/// Calls `Duration::as_secs`, which depends on the duration alone; the result is known
/// by the name `whole_secs` and nothing more is claimed of it.
#[verifier::external_body]
fn duration_as_secs(duration: &Duration) -> (r: u64)
    ensures
        r == whole_secs(*duration),
{
    duration.as_secs()
}

/// Calls `Duration::subsec_nanos`, which depends on the duration alone; the result is
/// known by the name `subsec_nanos`. Its documentation says that the number is always
/// a part of a second, that is less than one billion, and that is claimed here.
#[verifier::external_body]
fn duration_subsec_nanos(duration: &Duration) -> (r: u32)
    ensures
        r == subsec_nanos(*duration),
        r < NANOS_PER_SEC,
{
    duration.subsec_nanos()
}

/// Counts the whole milliseconds in `secs` seconds and `nanos` nanoseconds.
pub fn millis_of(secs: u64, nanos: u32) -> (r: u128)
    ensures
        r == millis_in(secs, nanos),
{
    secs as u128 * 1000 + (nanos / 1_000_000) as u128
}

/// The timestamp for a clock that is `elapsed` past the Unix epoch: the whole
/// milliseconds of it, or `None` where the clock stands before the epoch.
pub fn millis_since_epoch(elapsed: Result<Duration, SystemTimeError>) -> (r: Option<u128>)
    ensures
        r == timestamp_of(elapsed),
        elapsed matches Ok(duration) ==> subsec_nanos(duration) < NANOS_PER_SEC,
{
    match elapsed {
        Ok(duration) => {
            let secs: u64 = duration_as_secs(&duration);
            let nanos: u32 = duration_subsec_nanos(&duration);
            Some(millis_of(secs, nanos))
        },
        Err(_) => None,
    }
}

/// Reads the system clock and returns the milliseconds since the Unix epoch, or `None`
/// where the clock stands before the epoch.
///
/// What the clock shows is not known beforehand. Whatever it shows, the result is the
/// timestamp that belongs to the distance from the epoch that was read.
pub fn get_timestamp() -> (r: Option<u128>)
    ensures
        exists|elapsed: Result<Duration, SystemTimeError>| r == #[trigger] timestamp_of(elapsed),
{
    let now: SystemTime = system_time_now();
    let elapsed: Result<Duration, SystemTimeError> = since_unix_epoch(&now);
    let r: Option<u128> = millis_since_epoch(elapsed);
    assert(r == timestamp_of(elapsed));
    r
}

/// A clock that shows more gives a timestamp that is no smaller: the count of whole
/// milliseconds grows with the seconds and, within a second, with the nanoseconds.
pub proof fn lemma_millis_grow(secs: u64, nanos: u32, later_secs: u64, later_nanos: u32)
    requires
        nanos < NANOS_PER_SEC,
        later_nanos < NANOS_PER_SEC,
        secs < later_secs || (secs == later_secs && nanos <= later_nanos),
    ensures
        millis_in(secs, nanos) <= millis_in(later_secs, later_nanos),
        millis_in(secs, nanos) * 1_000_000 <= secs * NANOS_PER_SEC + nanos,
        secs * NANOS_PER_SEC + nanos < (millis_in(secs, nanos) + 1) * 1_000_000,
{
}

} // verus!
