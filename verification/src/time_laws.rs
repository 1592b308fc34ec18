//! Lengths of time and moments, in plain numbers.

use vstd::prelude::*;

use crate::time::{clamp_millis, unix_millis, Duration, Timestamp};

verus! {

/// A length of time is as long as it was made.
pub proof fn lengths_are_as_made(
    secs: u64,
    nanos: u32,
    millis: u64,
    total: u128,
    a: Duration,
    b: Duration,
    c: Duration,
    d: Duration,
)
    requires
        nanos < 1_000_000_000,
        total <= 18_446_744_073_709_551_615_999_999_999,
        call_ensures(Duration::new, (secs, nanos), a),
        call_ensures(Duration::from_secs, (secs,), b),
        call_ensures(Duration::from_millis, (millis,), c),
        call_ensures(Duration::from_nanos, (total,), d),
    ensures
        a@ == secs * 1_000_000_000 + nanos,
        b@ == secs * 1_000_000_000,
        c@ == millis * 1_000_000,
        d@ == total,
{
}

/// A length of time is read in nanoseconds, in whole milliseconds, and as
/// to whether it is none.
pub proof fn lengths_are_read_as_they_are(d: &Duration, nanos: u128, millis: u128, zero: bool)
    requires
        call_ensures(Duration::as_nanos, (d,), nanos),
        call_ensures(Duration::as_millis, (d,), millis),
        call_ensures(Duration::is_zero, (d,), zero),
    ensures
        nanos == d@,
        millis * 1_000_000 <= d@ < (millis + 1) * 1_000_000,
        zero <==> d@ == 0,
{
}

/// Of two lengths the shorter is taken.
pub proof fn the_shorter_is_taken(a: Duration, b: Duration, shorter: Duration)
    requires
        call_ensures(Duration::min, (a, b), shorter),
    ensures
        shorter@ <= a@ && shorter@ <= b@,
        shorter@ == a@ || shorter@ == b@,
{
}

/// A moment some seconds later is that much later, to the nanosecond.
pub proof fn later_by_that_many_seconds(t: &Timestamp, delta: i64, later: Timestamp)
    requires
        t.can_add(delta),
        call_ensures(Timestamp::plus_seconds, (t, delta), later),
    ensures
        later.secs - t.secs == delta,
        later.nanos == t.nanos,
{
}

/// A later moment can be reached exactly where it still lies in the years
/// -262143 to 262142.
pub proof fn the_calendar_ends(t: &Timestamp, delta: i64, reached: bool)
    requires
        t.valid(),
        call_ensures(Timestamp::reaches, (t, delta), reached),
    ensures
        reached <==> -8_334_601_228_800 <= t.secs + delta <= 8_210_266_876_799,
{
}

/// A reading of the clock counts the milliseconds since 1970, as far as
/// they fit; a clock that stands before 1970 counts as zero.
pub proof fn clock_readings_count_from_1970(
    since_epoch: Option<u128>,
    millis: u128,
    ms: u64,
    clamped: u64,
)
    requires
        call_ensures(unix_millis, (since_epoch,), ms),
        call_ensures(clamp_millis, (millis,), clamped),
    ensures
        since_epoch is None ==> ms == 0,
        since_epoch matches Some(n) ==> ms == if n <= 18_446_744_073_709_551_615 {
            n
        } else {
            18_446_744_073_709_551_615
        },
        clamped == if millis <= 18_446_744_073_709_551_615 {
            millis
        } else {
            18_446_744_073_709_551_615
        },
{
}

} // verus!
