//! Leap-second awareness: conversion between UTC and TAI (atomic time, which
//! has no leap seconds and never runs backwards) and detection of timestamps
//! close to a leap second.
use vstd::prelude::*;
use crate::time_sync::{clamp_reading, reading_millis, system_millis};

verus! {

/// A leap second: when it took effect and the TAI - UTC offset after it.
#[derive(Debug, Clone, Copy, PartialEq, Eq, Structural)]
pub struct LeapSecond {
    /// Unix time, in seconds, at which the leap second took effect.
    pub timestamp: i64,
    /// TAI - UTC after it, in seconds.
    pub tai_offset: i32,
}

/// The TAI - UTC offset before the first leap second, in seconds.
pub const INITIAL_TAI_OFFSET: i32 = 10;

/// The largest TAI - UTC offset in the table, in seconds.
pub const LATEST_TAI_OFFSET: i64 = 37;

/// The leap seconds announced by the IERS up to 2017, in order.
pub open spec fn leap_table() -> Seq<LeapSecond> {
    seq![
        LeapSecond { timestamp: 63072000, tai_offset: 10 },
        LeapSecond { timestamp: 78796800, tai_offset: 11 },
        LeapSecond { timestamp: 94694400, tai_offset: 12 },
        LeapSecond { timestamp: 126230400, tai_offset: 13 },
        LeapSecond { timestamp: 157766400, tai_offset: 14 },
        LeapSecond { timestamp: 189302400, tai_offset: 15 },
        LeapSecond { timestamp: 220924800, tai_offset: 16 },
        LeapSecond { timestamp: 252460800, tai_offset: 17 },
        LeapSecond { timestamp: 283996800, tai_offset: 18 },
        LeapSecond { timestamp: 315532800, tai_offset: 19 },
        LeapSecond { timestamp: 362793600, tai_offset: 20 },
        LeapSecond { timestamp: 394329600, tai_offset: 21 },
        LeapSecond { timestamp: 425865600, tai_offset: 22 },
        LeapSecond { timestamp: 489024000, tai_offset: 23 },
        LeapSecond { timestamp: 567993600, tai_offset: 24 },
        LeapSecond { timestamp: 631152000, tai_offset: 25 },
        LeapSecond { timestamp: 662688000, tai_offset: 26 },
        LeapSecond { timestamp: 709948800, tai_offset: 27 },
        LeapSecond { timestamp: 741484800, tai_offset: 28 },
        LeapSecond { timestamp: 773020800, tai_offset: 29 },
        LeapSecond { timestamp: 820454400, tai_offset: 30 },
        LeapSecond { timestamp: 867715200, tai_offset: 31 },
        LeapSecond { timestamp: 915148800, tai_offset: 32 },
        LeapSecond { timestamp: 1136073600, tai_offset: 33 },
        LeapSecond { timestamp: 1230768000, tai_offset: 34 },
        LeapSecond { timestamp: 1341100800, tai_offset: 35 },
        LeapSecond { timestamp: 1435708800, tai_offset: 36 },
        LeapSecond { timestamp: 1483228800, tai_offset: 37 },
    ]
}

/// The leap second table.
pub fn get_leap_seconds() -> (r: Vec<LeapSecond>)
    ensures
        r@ == leap_table(),
{
    let r = vec![
        LeapSecond { timestamp: 63072000, tai_offset: 10 },
        LeapSecond { timestamp: 78796800, tai_offset: 11 },
        LeapSecond { timestamp: 94694400, tai_offset: 12 },
        LeapSecond { timestamp: 126230400, tai_offset: 13 },
        LeapSecond { timestamp: 157766400, tai_offset: 14 },
        LeapSecond { timestamp: 189302400, tai_offset: 15 },
        LeapSecond { timestamp: 220924800, tai_offset: 16 },
        LeapSecond { timestamp: 252460800, tai_offset: 17 },
        LeapSecond { timestamp: 283996800, tai_offset: 18 },
        LeapSecond { timestamp: 315532800, tai_offset: 19 },
        LeapSecond { timestamp: 362793600, tai_offset: 20 },
        LeapSecond { timestamp: 394329600, tai_offset: 21 },
        LeapSecond { timestamp: 425865600, tai_offset: 22 },
        LeapSecond { timestamp: 489024000, tai_offset: 23 },
        LeapSecond { timestamp: 567993600, tai_offset: 24 },
        LeapSecond { timestamp: 631152000, tai_offset: 25 },
        LeapSecond { timestamp: 662688000, tai_offset: 26 },
        LeapSecond { timestamp: 709948800, tai_offset: 27 },
        LeapSecond { timestamp: 741484800, tai_offset: 28 },
        LeapSecond { timestamp: 773020800, tai_offset: 29 },
        LeapSecond { timestamp: 820454400, tai_offset: 30 },
        LeapSecond { timestamp: 867715200, tai_offset: 31 },
        LeapSecond { timestamp: 915148800, tai_offset: 32 },
        LeapSecond { timestamp: 1136073600, tai_offset: 33 },
        LeapSecond { timestamp: 1230768000, tai_offset: 34 },
        LeapSecond { timestamp: 1341100800, tai_offset: 35 },
        LeapSecond { timestamp: 1435708800, tai_offset: 36 },
        LeapSecond { timestamp: 1483228800, tai_offset: 37 },
    ];
    assert(r@ =~= leap_table());
    r
}

/// Every offset in the table lies between the initial and the latest offset.
proof fn lemma_table_offsets()
    ensures
        forall|i: int|
            0 <= i < leap_table().len() ==> INITIAL_TAI_OFFSET <= (#[trigger] leap_table()[i]).tai_offset
                <= LATEST_TAI_OFFSET,
{
}

/// The offset reached by walking `t` from its start while its leap seconds are
/// at or before `s`, starting from `acc`.
pub open spec fn scan_offset(t: Seq<LeapSecond>, s: i64, acc: i32) -> i32
    decreases t.len(),
{
    if t.len() == 0 {
        acc
    } else if s >= t[0].timestamp {
        scan_offset(t.drop_first(), s, t[0].tai_offset)
    } else {
        acc
    }
}

/// TAI - UTC, in seconds, at Unix time `s`.
pub open spec fn tai_offset(s: i64) -> i32 {
    scan_offset(leap_table(), s, INITIAL_TAI_OFFSET)
}

/// Integer division rounding toward zero, as Rust's `/` does.
pub open spec fn div_toward_zero(a: int, b: int) -> int {
    if a >= 0 {
        a / b
    } else {
        -((-a) / b)
    }
}

proof fn lemma_scan_bounds(t: Seq<LeapSecond>, s: i64, acc: i32)
    requires
        INITIAL_TAI_OFFSET <= acc <= LATEST_TAI_OFFSET,
        forall|i: int| 0 <= i < t.len() ==> INITIAL_TAI_OFFSET <= (#[trigger] t[i]).tai_offset <= LATEST_TAI_OFFSET,
    ensures
        INITIAL_TAI_OFFSET <= scan_offset(t, s, acc) <= LATEST_TAI_OFFSET,
    decreases t.len(),
{
    if t.len() > 0 && s >= t[0].timestamp {
        let rest = t.drop_first();
        assert forall|i: int| 0 <= i < rest.len() implies INITIAL_TAI_OFFSET <= (#[trigger] rest[i]).tai_offset
            <= LATEST_TAI_OFFSET by {
            assert(rest[i] == t[i + 1]);
        }
        lemma_scan_bounds(rest, s, t[0].tai_offset);
    }
}

/// The TAI - UTC offset is always between 10 and 37 seconds.
pub proof fn lemma_tai_offset_bounds(s: i64)
    ensures
        INITIAL_TAI_OFFSET <= tai_offset(s) <= LATEST_TAI_OFFSET,
{
    lemma_table_offsets();
    lemma_scan_bounds(leap_table(), s, INITIAL_TAI_OFFSET);
}

/// TAI - UTC, in seconds, at Unix time `unix_seconds`.
pub fn get_tai_offset(unix_seconds: i64) -> (r: i32)
    ensures
        r == tai_offset(unix_seconds),
{
    let leap_seconds = get_leap_seconds();
    let mut offset: i32 = INITIAL_TAI_OFFSET;
    let mut i: usize = 0;
    assert(leap_table().subrange(0, leap_table().len() as int) =~= leap_table());
    while i < leap_seconds.len()
        invariant
            i <= leap_seconds@.len(),
            leap_seconds@ == leap_table(),
            scan_offset(leap_table(), unix_seconds, INITIAL_TAI_OFFSET) == scan_offset(
                leap_table().subrange(i as int, leap_table().len() as int),
                unix_seconds,
                offset,
            ),
        ensures
            offset == tai_offset(unix_seconds),
        decreases leap_seconds@.len() - i,
    {
        let ghost rest = leap_table().subrange(i as int, leap_table().len() as int);
        let leap = leap_seconds[i];
        if unix_seconds >= leap.timestamp {
            offset = leap.tai_offset;
        } else {
            break;
        }
        i = i + 1;
        assert(rest.drop_first() =~= leap_table().subrange(i as int, leap_table().len() as int));
        if i == leap_seconds.len() {
            assert(leap_table().subrange(i as int, leap_table().len() as int).len() == 0);
        }
    }
    offset
}

/// Converts UTC milliseconds to TAI milliseconds.
pub fn utc_to_tai_millis(utc_millis: i64) -> (r: i64)
    requires
        utc_millis <= i64::MAX - 1000 * LATEST_TAI_OFFSET,
    ensures
        r == utc_millis + 1000 * tai_offset(div_toward_zero(utc_millis as int, 1000) as i64),
{
    let utc_seconds = utc_millis / 1000;
    let offset = get_tai_offset(utc_seconds);
    proof {
        lemma_tai_offset_bounds(utc_seconds);
    }
    utc_millis + (offset as i64 * 1000)
}

/// Converts TAI milliseconds to UTC milliseconds, looking the offset up at the
/// UTC second that the latest offset would give.
pub fn tai_to_utc_millis(tai_millis: i64) -> (r: i64)
    requires
        tai_millis >= i64::MIN + 1000 * LATEST_TAI_OFFSET,
    ensures
        r == tai_millis - 1000 * tai_offset(
            (div_toward_zero(tai_millis as int, 1000) - LATEST_TAI_OFFSET) as i64,
        ),
{
    let approx_utc_seconds = (tai_millis / 1000) - LATEST_TAI_OFFSET;
    let offset = get_tai_offset(approx_utc_seconds);
    proof {
        lemma_tai_offset_bounds(approx_utc_seconds);
    }
    tai_millis - (offset as i64 * 1000)
}

/// The latest UTC time, in milliseconds, whose TAI value fits in an `i64`.
pub const LATEST_UTC_MILLIS: i64 = i64::MAX - 1000 * LATEST_TAI_OFFSET;

/// TAI milliseconds for UTC milliseconds `u`.
pub open spec fn tai_of_utc(u: i64) -> int {
    u + 1000 * tai_offset(div_toward_zero(u as int, 1000) as i64)
}

/// The current time in TAI milliseconds. The UTC reading is 0 for a clock
/// set before the epoch, and at most `LATEST_UTC_MILLIS`.
pub fn now_tai_millis() -> (r: i64)
    ensures
        exists|m: Option<u128>|
            r == tai_of_utc(#[trigger] clamp_reading(m, LATEST_UTC_MILLIS as u128) as i64),
        r >= 1000 * INITIAL_TAI_OFFSET,
{
    let m = system_millis();
    let utc_millis = reading_millis(m, LATEST_UTC_MILLIS as u128) as i64;
    proof {
        lemma_tai_offset_bounds(div_toward_zero(utc_millis as int, 1000) as i64);
    }
    utc_to_tai_millis(utc_millis)
}

/// Whether Unix time `s` (in seconds) is within one second of a leap second
/// of `t`.
pub open spec fn near_any(t: Seq<LeapSecond>, s: int) -> bool {
    exists|i: int| 0 <= i < t.len() && -1 <= s - (#[trigger] t[i]).timestamp <= 1
}

/// Whether `utc_millis` falls within one second of a known leap second.
pub fn is_near_leap_second(utc_millis: i64) -> (r: bool)
    ensures
        r == near_any(leap_table(), div_toward_zero(utc_millis as int, 1000)),
{
    let utc_seconds = utc_millis / 1000;
    let leap_seconds = get_leap_seconds();
    let mut i: usize = 0;
    while i < leap_seconds.len()
        invariant
            i <= leap_seconds@.len(),
            leap_seconds@ == leap_table(),
            utc_seconds == div_toward_zero(utc_millis as int, 1000),
            forall|j: int|
                0 <= j < i ==> !(-1 <= utc_seconds - (#[trigger] leap_table()[j]).timestamp <= 1),
        decreases leap_seconds@.len() - i,
    {
        let leap = leap_seconds[i];
        let diff = utc_seconds - leap.timestamp;
        if -1 <= diff && diff <= 1 {
            return true;
        }
        i = i + 1;
    }
    false
}

/// Whether `curr_tai_millis` comes strictly after `prev_tai_millis`.
pub fn validate_time_ordering(prev_tai_millis: i64, curr_tai_millis: i64) -> (r: bool)
    ensures
        r == (curr_tai_millis > prev_tai_millis),
{
    curr_tai_millis > prev_tai_millis
}

} // verus!
