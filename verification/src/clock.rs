//! The wall clock, in whole seconds since the Unix epoch.

use vstd::prelude::*;

verus! {

/// How far before its start an idle timer's finish time lies, in seconds.
pub const SENTINEL_GAP: i64 = 3600;

/// The longest countdown the three fields can ask for, in seconds:
/// 23 hours, 59 minutes and 59 seconds.
pub const MAX_DURATION: i64 = 86_399;

/// A clock reading that a timer can start from: one hour before it and the
/// longest countdown after it are both still `i64` seconds.
pub open spec fn valid_time(t: int) -> bool {
    i64::MIN + SENTINEL_GAP <= t <= i64::MAX - MAX_DURATION
}

/// Whether a timer can start from the clock reading `t`.
pub fn is_valid_time(t: i64) -> (ok: bool)
    ensures
        ok == valid_time(t as int),
{
    i64::MIN + SENTINEL_GAP <= t && t <= i64::MAX - MAX_DURATION
}

/// The whole seconds, rounded down, of the moment that lies `secs` seconds
/// and `nanos` nanoseconds after the epoch, or that far before it.
pub open spec fn floor_seconds(after: bool, secs: u64, nanos: u32) -> int {
    if after {
        secs as int
    } else if nanos == 0 {
        -(secs as int)
    } else {
        -(secs as int) - 1
    }
}

/// The reading nearest to `t` that a timer can start from: `t` itself
/// wherever it is one.
pub open spec fn nearest_valid_time(t: int) -> int {
    if t < i64::MIN + SENTINEL_GAP {
        i64::MIN + SENTINEL_GAP
    } else if t > i64::MAX - MAX_DURATION {
        i64::MAX - MAX_DURATION
    } else {
        t
    }
}

/// Reads the system clock: `SystemTime::now`, and of that
/// `SystemTime::duration_since` the Unix epoch. The result says whether
/// the clock stands at or after the epoch, and how far from it, as
/// `Duration::as_secs` and `Duration::subsec_nanos` give the distance;
/// before the epoch the distance is that of `SystemTimeError::duration`.
/// Nothing is claimed of the reading: the clock may be set to anything,
/// and two readings need not agree.
#[verifier::external_body]
pub(crate) fn clock_against_epoch() -> (reading: (bool, u64, u32)) {
    match std::time::SystemTime::now().duration_since(std::time::UNIX_EPOCH) {
        Ok(after) => (true, after.as_secs(), after.subsec_nanos()),
        Err(before) => (false, before.duration().as_secs(), before.duration().subsec_nanos()),
    }
}

/// The clock reading, in whole seconds since the epoch, of a moment given
/// by its distance from the epoch. A moment too far from the epoch for a
/// timer to start from counts as the nearest one that is not.
pub fn seconds_of(after: bool, secs: u64, nanos: u32) -> (reading: i64)
    ensures
        reading == nearest_valid_time(floor_seconds(after, secs, nanos)),
        valid_time(reading as int),
{
    let first: i64 = i64::MIN + SENTINEL_GAP;
    let last: i64 = i64::MAX - MAX_DURATION;
    if after {
        if secs > last as u64 {
            last
        } else {
            secs as i64
        }
    } else {
        let furthest: u64 = (i64::MAX - (SENTINEL_GAP - 1)) as u64;
        if secs >= furthest {
            first
        } else if nanos == 0 {
            0 - secs as i64
        } else {
            0 - secs as i64 - 1
        }
    }
}

/// The present clock reading, in whole seconds since the epoch.
pub(crate) fn wall_clock_seconds() -> (secs: i64)
    ensures
        valid_time(secs as int),
{
    let (after, secs, nanos) = clock_against_epoch();
    seconds_of(after, secs, nanos)
}

} // verus!
