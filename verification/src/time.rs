//! Lengths of time, moments, and the clocks they are read from.

use vstd::prelude::*;

use chrono::{DateTime, TimeDelta, Utc};
use std::time::{Instant, SystemTime};

verus! {

pub const NANOS_PER_SEC: u128 = 1_000_000_000;

pub const NANOS_PER_MILLI: u128 = 1_000_000;

/// The longest [`Duration`]: `u64::MAX` seconds and 999 999 999
/// nanoseconds.
pub const MAX_NANOS: u128 = 18_446_744_073_709_551_615_999_999_999;

/// The first second that a calendar date can name: the start of the year
/// -262143.
pub const MIN_SECS: i64 = -8_334_601_228_800;

/// The last second that a calendar date can name: the end of the year
/// 262142.
pub const MAX_SECS: i64 = 8_210_266_876_799;

/// A length of time, to the nanosecond. Its view is the number of
/// nanoseconds.
#[derive(Clone, Copy, Debug, PartialEq, Eq, Structural)]
pub struct Duration {
    nanos: u128,
}

impl View for Duration {
    type V = nat;

    closed spec fn view(&self) -> nat {
        self.nanos as nat
    }
}

impl Duration {
    #[verifier::type_invariant]
    spec fn representable(self) -> bool {
        self.nanos <= MAX_NANOS
    }

    /// `secs` whole seconds and `nanos` nanoseconds.
    pub fn new(secs: u64, nanos: u32) -> (d: Duration)
        requires
            nanos < NANOS_PER_SEC,
        ensures
            d@ == secs * NANOS_PER_SEC + nanos,
    {
        Duration { nanos: secs as u128 * NANOS_PER_SEC + nanos as u128 }
    }

    pub fn from_secs(secs: u64) -> (d: Duration)
        ensures
            d@ == secs * NANOS_PER_SEC,
    {
        Duration::new(secs, 0)
    }

    pub fn from_millis(millis: u64) -> (d: Duration)
        ensures
            d@ == millis * NANOS_PER_MILLI,
    {
        Duration { nanos: millis as u128 * NANOS_PER_MILLI }
    }

    pub fn from_nanos(nanos: u128) -> (d: Duration)
        requires
            nanos <= MAX_NANOS,
        ensures
            d@ == nanos,
    {
        Duration { nanos }
    }

    /// The number of nanoseconds.
    pub fn as_nanos(&self) -> (nanos: u128)
        ensures
            nanos == self@,
            nanos <= MAX_NANOS,
    {
        proof {
            use_type_invariant(self);
        }
        self.nanos
    }

    /// The number of whole milliseconds.
    pub fn as_millis(&self) -> (millis: u128)
        ensures
            millis == self@ / NANOS_PER_MILLI as nat,
    {
        self.nanos / NANOS_PER_MILLI
    }

    pub fn is_zero(&self) -> (zero: bool)
        ensures
            zero == (self@ == 0),
    {
        self.nanos == 0
    }

    /// The shorter of the two.
    pub fn min(self, other: Duration) -> (d: Duration)
        ensures
            d@ == if self@ <= other@ { self@ } else { other@ },
    {
        if self.nanos <= other.nanos {
            self
        } else {
            other
        }
    }
}

/// A moment in UTC: seconds since the start of 1970, and the nanoseconds
/// within that second.
#[derive(Clone, Copy, Debug, PartialEq, Eq, Structural)]
pub struct Timestamp {
    pub secs: i64,
    pub nanos: u32,
}

impl Timestamp {
    /// The moment lies in the range of the calendar.
    pub open spec fn valid(self) -> bool {
        &&& MIN_SECS <= self.secs <= MAX_SECS
        &&& self.nanos < NANOS_PER_SEC
    }

    /// The moment and the moment `delta` seconds later both lie in the
    /// range of the calendar.
    pub open spec fn can_add(self, delta: i64) -> bool {
        &&& self.valid()
        &&& MIN_SECS <= self.secs + delta <= MAX_SECS
    }

    /// The moment `delta` seconds later.
    pub open spec fn later(self, delta: i64) -> Timestamp {
        Timestamp { secs: (self.secs + delta) as i64, nanos: self.nanos }
    }

    /// The present moment, as the clock gives it.
    pub fn now() -> (t: Timestamp)
        ensures
            t.valid(),
            utc_reads(t.secs, t.nanos),
    {
        let (secs, nanos) = utc_now();
        Timestamp { secs, nanos }
    }

    /// Whether the moment `delta` seconds later lies in the range of the
    /// calendar.
    pub fn reaches(&self, delta: i64) -> (reached: bool)
        requires
            self.valid(),
        ensures
            reached == self.can_add(delta),
    {
        match self.secs.checked_add(delta) {
            Some(secs) => MIN_SECS <= secs && secs <= MAX_SECS,
            None => false,
        }
    }

    /// The moment `delta` seconds later; earlier, where `delta` is
    /// negative.
    pub fn plus_seconds(&self, delta: i64) -> (t: Timestamp)
        requires
            self.can_add(delta),
        ensures
            t == self.later(delta),
            t.valid(),
    {
        let (secs, nanos) = utc_plus_seconds(self.secs, self.nanos, delta);
        Timestamp { secs, nanos }
    }
}

/// The present in milliseconds since the start of 1970. Which moment it is
/// depends on the clock.
pub(crate) fn now_ms() -> (ms: u64)
    ensures
        clock_reads(ms),
{
    unix_millis(millis_since_epoch(SystemTime::now()))
}

/// A clock reading in milliseconds since the start of 1970: zero where the
/// clock stands before that, `u64::MAX` where the number does not fit.
pub open spec fn unix_millis_view(since_epoch: Option<u128>) -> int {
    match since_epoch {
        Some(millis) => if millis <= u64::MAX {
            millis as int
        } else {
            u64::MAX as int
        },
        None => 0,
    }
}

/// A clock reading in milliseconds since the start of 1970.
pub fn unix_millis(since_epoch: Option<u128>) -> (ms: u64)
    ensures
        ms == unix_millis_view(since_epoch),
{
    match since_epoch {
        Some(millis) => clamp_millis(millis),
        None => 0,
    }
}

/// The number, or `u64::MAX` where it does not fit.
pub fn clamp_millis(millis: u128) -> (clamped: u64)
    ensures
        clamped == if millis <= u64::MAX { millis as int } else { u64::MAX as int },
{
    if millis <= u64::MAX as u128 {
        millis as u64
    } else {
        u64::MAX
    }
}

/// The calendar clock can give this reading.
pub closed spec fn utc_reads(secs: i64, nanos: u32) -> bool {
    call_ensures(utc_now, (), (secs, nanos))
}

/// The clock that never goes back can give this reading.
pub closed spec fn instant_reads(reading: Instant) -> bool {
    call_ensures(Instant::now, (), reading)
}

/// Read the clock that never goes back.
pub(crate) fn instant() -> (reading: Instant)
    ensures
        instant_reads(reading),
{
    Instant::now()
}

/// This much time can have passed since `start`, by the clock that never
/// goes back.
pub closed spec fn elapsed_reads(start: Instant, nanos: u128) -> bool {
    call_ensures(nanos_since, (&start,), nanos)
}

/// How long it has been since `start`, in nanoseconds.
pub(crate) fn elapsed(start: &Instant) -> (nanos: u128)
    ensures
        nanos <= MAX_NANOS,
        elapsed_reads(*start, nanos),
{
    nanos_since(start)
}

/// The system clock can give a reading that comes to `ms` milliseconds since
/// the start of 1970.
pub closed spec fn clock_reads(ms: u64) -> bool {
    exists|reading: SystemTime, since_epoch: Option<u128>|
        {
            &&& call_ensures(SystemTime::now, (), reading)
            &&& #[trigger] call_ensures(millis_since_epoch, (reading,), since_epoch)
            &&& ms == unix_millis_view(since_epoch)
        }
}

/// `chrono::Utc::now`, as seconds since the start of 1970 and nanoseconds
/// within the second. The clock decides which moment it is; claimed is only
/// that it lies in the calendar's range and is no leap second. The call
/// panics where the system clock stands before 1970.
#[verifier::external_body]
fn utc_now() -> (now: (i64, u32))
    ensures
        MIN_SECS <= now.0 <= MAX_SECS,
        now.1 < NANOS_PER_SEC,
{
    let now = Utc::now();
    (now.timestamp(), now.timestamp_subsec_nanos())
}

/// `+` of a `chrono::DateTime<Utc>` and a `chrono::TimeDelta` of whole
/// seconds. Claimed: it adds to the seconds and leaves the nanoseconds. It
/// panics where the sum leaves the calendar's range, which is left out.
#[verifier::external_body]
fn utc_plus_seconds(secs: i64, nanos: u32, delta: i64) -> (later: (i64, u32))
    requires
        MIN_SECS <= secs <= MAX_SECS,
        nanos < NANOS_PER_SEC,
        MIN_SECS <= secs + delta <= MAX_SECS,
    ensures
        later.0 == secs + delta,
        later.1 == nanos,
{
    let start: DateTime<Utc> = DateTime::from_timestamp(secs, nanos).unwrap();
    let end = start + TimeDelta::seconds(delta);
    (end.timestamp(), end.timestamp_subsec_nanos())
}

/// `std::time::SystemTime`, a reading of the system clock.
#[verifier::external_type_specification]
#[verifier::external_body]
pub struct ExSystemTime(SystemTime);

/// `std::time::SystemTime::now`: nothing is claimed of the reading.
pub assume_specification[ SystemTime::now ]() -> SystemTime;

/// `std::time::SystemTime::duration_since` the start of 1970, in whole
/// milliseconds; none where the reading is earlier. Which number comes out
/// depends on the clock: nothing is claimed of it.
#[verifier::external_body]
fn millis_since_epoch(reading: SystemTime) -> Option<u128> {
    reading.duration_since(SystemTime::UNIX_EPOCH).ok().map(|d| d.as_millis())
}

/// `std::time::Instant`, a reading of a clock that never goes back.
#[verifier::external_type_specification]
#[verifier::external_body]
pub struct ExInstant(Instant);

/// `std::time::Instant::now`: nothing is claimed of the reading.
pub assume_specification[ Instant::now ]() -> Instant;

/// `std::time::Instant::elapsed`, in nanoseconds. How long it has been
/// depends on the clock; claimed is only that it is a length of time.
#[verifier::external_body]
fn nanos_since(start: &Instant) -> (nanos: u128)
    ensures
        nanos <= MAX_NANOS,
{
    start.elapsed().as_nanos()
}

} // verus!
