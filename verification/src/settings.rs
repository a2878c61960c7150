//! The ranges of the integer settings: the work interval, the break length
//! and the number of cockroaches, as the settings window offers them.

use vstd::prelude::*;

verus! {

/// Shortest work interval, in minutes.
pub const INTERVAL_MINUTES_MIN: u32 = 1;

/// Longest work interval, in minutes.
pub const INTERVAL_MINUTES_MAX: u32 = 120;

/// Shortest break, in seconds.
pub const DURATION_SECONDS_MIN: u32 = 3;

/// Longest break, in seconds.
pub const DURATION_SECONDS_MAX: u32 = 120;

/// Fewest cockroaches per display.
pub const COCKROACH_COUNT_MIN: u32 = 1;

/// Most cockroaches per display.
pub const COCKROACH_COUNT_MAX: u32 = 50;

/// `v` moved into `[lo, hi]` (`lo <= hi`).
pub open spec fn clamped(v: int, lo: int, hi: int) -> int {
    if v < lo {
        lo
    } else if v > hi {
        hi
    } else {
        v
    }
}

fn clamp_u32(v: u32, lo: u32, hi: u32) -> (r: u32)
    requires
        lo <= hi,
    ensures
        r == clamped(v as int, lo as int, hi as int),
{
    if v < lo {
        lo
    } else if v > hi {
        hi
    } else {
        v
    }
}

/// The interval, break length and cockroach count, each moved into the
/// range that the settings window offers.
pub fn clamp_schedule(interval_minutes: u32, duration_seconds: u32, cockroach_count: u32) -> (r: (
    u32,
    u32,
    u32,
))
    ensures
        r.0 == clamped(interval_minutes as int, INTERVAL_MINUTES_MIN as int, INTERVAL_MINUTES_MAX as int),
        r.1 == clamped(duration_seconds as int, DURATION_SECONDS_MIN as int, DURATION_SECONDS_MAX as int),
        r.2 == clamped(cockroach_count as int, COCKROACH_COUNT_MIN as int, COCKROACH_COUNT_MAX as int),
{
    (
        clamp_u32(interval_minutes, INTERVAL_MINUTES_MIN, INTERVAL_MINUTES_MAX),
        clamp_u32(duration_seconds, DURATION_SECONDS_MIN, DURATION_SECONDS_MAX),
        clamp_u32(cockroach_count, COCKROACH_COUNT_MIN, COCKROACH_COUNT_MAX),
    )
}

/// A clamped value lies in its range, a value in its range stays as it
/// is, and clamping twice is clamping once.
pub proof fn clamp_laws(v: int, lo: int, hi: int)
    requires
        lo <= hi,
    ensures
        lo <= clamped(v, lo, hi) <= hi,
        lo <= v <= hi ==> clamped(v, lo, hi) == v,
        clamped(clamped(v, lo, hi), lo, hi) == clamped(v, lo, hi),
{
}

} // verus!
