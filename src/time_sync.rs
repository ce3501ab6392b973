//! The validator's view of trusted time: the tolerance within which a block's
//! timestamp must lie, and hour-long waits measured against the clock.
use vstd::prelude::*;

verus! {

/// How far a block timestamp may lag behind the clock, in milliseconds.
pub const MAX_PAST_MS: u128 = 300_000;

/// One hour in milliseconds.
pub const HOUR_MS: u128 = 3_600_000;

/// Relies on std::time::SystemTime::now and its duration_since(UNIX_EPOCH):
/// the milliseconds since the Unix epoch, or none for a clock set before it.
/// The reading depends on the machine's clock, so nothing more is stated.
#[verifier::external_body]
pub(crate) fn system_millis() -> (r: Option<u128>) {
    std::time::SystemTime::now().duration_since(std::time::UNIX_EPOCH).ok().map(|d| d.as_millis())
}

/// A clock reading in milliseconds as the library uses it: 0 for a clock set
/// before the epoch, and never more than `cap`.
pub open spec fn clamp_reading(reading: Option<u128>, cap: u128) -> u128 {
    match reading {
        None => 0,
        Some(ms) => if ms > cap {
            cap
        } else {
            ms
        },
    }
}

/// A clock reading in milliseconds, as `clamp_reading` states.
pub fn reading_millis(reading: Option<u128>, cap: u128) -> (r: u128)
    ensures
        r == clamp_reading(reading, cap),
{
    match reading {
        None => 0,
        Some(ms) => if ms > cap {
            cap
        } else {
            ms
        },
    }
}

/// A time reading and where it came from.
#[derive(Debug, Clone)]
pub struct TrustedTime {
    pub timestamp_ms: u128,
    pub source: String,
}

impl TrustedTime {
    /// A reading of `unix_seconds` whole seconds since the epoch from `source`;
    /// none for a time before the epoch.
    pub fn from_unix_seconds(unix_seconds: i64, source: String) -> (r: Option<TrustedTime>)
        ensures
            unix_seconds < 0 ==> r is None,
            unix_seconds >= 0 ==> (r matches Some(t) && t.timestamp_ms == unix_seconds * 1000
                && t.source == source),
    {
        if unix_seconds < 0 {
            None
        } else {
            Some(TrustedTime { timestamp_ms: (unix_seconds as u128) * 1000, source })
        }
    }
}

/// Whether `timestamp` is acceptable at clock time `now`: at most `tolerance_ms`
/// ahead of it and at most five minutes behind it.
pub open spec fn within_tolerance(tolerance_ms: u128, timestamp: u128, now: u128) -> bool {
    timestamp <= now + tolerance_ms && timestamp >= now - MAX_PAST_MS
}

/// Whether an hour has passed since `previous` at clock time `now`.
pub open spec fn hour_passed(previous: u128, now: u128) -> bool {
    now >= previous + HOUR_MS
}

/// `timestamp` minus `now`, in milliseconds.
pub open spec fn diff_ms(timestamp: u128, now: u128) -> int {
    timestamp - now
}

/// Whole seconds from `now` until `until`, 0 once it is reached, capped at `u64::MAX`.
pub open spec fn seconds_until(until: int, now: int) -> u64 {
    if now >= until {
        0
    } else if (until - now) / 1000 > u64::MAX {
        u64::MAX
    } else {
        ((until - now) / 1000) as u64
    }
}

/// Whole seconds from `now` until `until`, as `seconds_until` states.
pub fn seconds_between(now: u128, until: u128) -> (r: u64)
    ensures
        r == seconds_until(until as int, now as int),
{
    if now >= until {
        0
    } else {
        let s = (until - now) / 1000;
        if s > u64::MAX as u128 {
            u64::MAX
        } else {
            s as u64
        }
    }
}

/// Checks block timestamps against the clock.
pub struct TimeSync {
    /// How far ahead of the clock a timestamp may be, in milliseconds.
    pub tolerance_ms: u128,
    /// The last reading taken from a time source, if any.
    pub last_sync_time: Option<u128>,
}

impl TimeSync {
    /// Timestamp rules with the default tolerance of 500 ms.
    pub fn new() -> (r: Self)
        ensures
            r.tolerance_ms == 500,
            r.last_sync_time is None,
    {
        TimeSync { tolerance_ms: 500, last_sync_time: None }
    }

    /// Timestamp rules with the given tolerance.
    pub fn new_with_tolerance(tolerance_ms: u128) -> (r: Self)
        ensures
            r.tolerance_ms == tolerance_ms,
            r.last_sync_time is None,
    {
        TimeSync { tolerance_ms, last_sync_time: None }
    }

    /// Records a reading taken from a time source and returns it.
    pub fn record_sync(&mut self, time: TrustedTime) -> (r: TrustedTime)
        ensures
            final(self).tolerance_ms == old(self).tolerance_ms,
            final(self).last_sync_time == Some(time.timestamp_ms),
            r == time,
    {
        self.last_sync_time = Some(time.timestamp_ms);
        time
    }

    /// Falls back to the system clock as the time source: records a reading
    /// of it, marked "system", and returns that reading.
    pub fn sync_with_system_clock(&mut self) -> (r: TrustedTime)
        ensures
            final(self).tolerance_ms == old(self).tolerance_ms,
            final(self).last_sync_time == Some(r.timestamp_ms),
            r.timestamp_ms <= i64::MAX,
            r.source@ == "system"@,
    {
        let timestamp_ms = Self::get_system_time();
        self.record_sync(TrustedTime { timestamp_ms, source: "system".to_owned() })
    }

    /// The current system time in milliseconds since the Unix epoch: 0 for a
    /// clock set before the epoch, and at most `i64::MAX`.
    pub fn get_system_time() -> (r: u128)
        ensures
            exists|m: Option<u128>| r == #[trigger] clamp_reading(m, i64::MAX as u128),
            r <= i64::MAX,
    {
        let m = system_millis();
        reading_millis(m, i64::MAX as u128)
    }

    /// Whether `timestamp` is acceptable when the clock reads `current_time`.
    pub fn validate_timestamp_at(&self, timestamp: u128, current_time: u128) -> (r: bool)
        ensures
            r == within_tolerance(self.tolerance_ms, timestamp, current_time),
    {
        if timestamp > current_time && timestamp - current_time > self.tolerance_ms {
            return false;
        }
        if timestamp < current_time.saturating_sub(MAX_PAST_MS) {
            return false;
        }
        true
    }

    /// Whether `timestamp` is acceptable now.
    pub fn validate_timestamp(&self, timestamp: u128) -> (r: bool)
        ensures
            exists|t: u128|
                t <= i64::MAX && r == #[trigger] within_tolerance(self.tolerance_ms, timestamp, t),
    {
        let now = Self::get_system_time();
        self.validate_timestamp_at(timestamp, now)
    }

    /// `timestamp` minus the current time, in milliseconds.
    pub fn time_diff(&self, timestamp: u128) -> (r: i128)
        requires
            timestamp <= i128::MAX,
        ensures
            exists|t: u128| t <= i64::MAX && r == #[trigger] diff_ms(timestamp, t),
            timestamp - i64::MAX <= r <= timestamp,
    {
        let now = Self::get_system_time();
        let r = timestamp as i128 - now as i128;
        assert(r == diff_ms(timestamp, now));
        r
    }

    /// Whether an hour has passed since `previous_timestamp` at clock time `current_time`.
    pub fn has_hour_passed_at(&self, previous_timestamp: u128, current_time: u128) -> (r: bool)
        ensures
            r == hour_passed(previous_timestamp, current_time),
    {
        current_time >= previous_timestamp && current_time - previous_timestamp >= HOUR_MS
    }

    /// Whether an hour has passed since `previous_timestamp`.
    pub fn has_hour_passed(&self, previous_timestamp: u128) -> (r: bool)
        ensures
            exists|t: u128| t <= i64::MAX && r == #[trigger] hour_passed(previous_timestamp, t),
    {
        let now = Self::get_system_time();
        self.has_hour_passed_at(previous_timestamp, now)
    }

    /// Whole seconds left, at clock time `current_time`, until an hour has
    /// passed since `previous_timestamp`.
    pub fn seconds_until_hour_passed_at(&self, previous_timestamp: u128, current_time: u128) -> (r: u64)
        ensures
            r == seconds_until(previous_timestamp + HOUR_MS, current_time as int),
    {
        if current_time >= previous_timestamp {
            let passed = current_time - previous_timestamp;
            if passed >= HOUR_MS {
                0
            } else {
                ((HOUR_MS - passed) / 1000) as u64
            }
        } else {
            let gap = previous_timestamp - current_time;
            let secs = gap / 1000 + (gap % 1000 + HOUR_MS) / 1000;
            proof {
                let g = gap as int;
                assert((g + HOUR_MS) / 1000 == g / 1000 + (g % 1000 + HOUR_MS) / 1000) by (nonlinear_arith)
                    requires
                        g >= 0,
                        g == 1000 * (g / 1000) + g % 1000,
                        0 <= g % 1000 < 1000,
                ;
            }
            if secs > u64::MAX as u128 {
                u64::MAX
            } else {
                secs as u64
            }
        }
    }

    /// Whole seconds left until an hour has passed since `previous_timestamp`.
    pub fn seconds_until_hour_passed(&self, previous_timestamp: u128) -> (r: u64)
        ensures
            exists|t: u128|
                t <= i64::MAX && r == #[trigger] seconds_until(previous_timestamp + HOUR_MS, t as int),
            r <= (previous_timestamp + HOUR_MS) / 1000,
    {
        let now = Self::get_system_time();
        self.seconds_until_hour_passed_at(previous_timestamp, now)
    }
}

impl Default for TimeSync {
    fn default() -> (r: Self)
        ensures
            r.tolerance_ms == 500,
            r.last_sync_time is None,
    {
        Self::new()
    }
}

} // verus!
