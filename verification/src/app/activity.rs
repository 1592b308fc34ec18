//! Activity gate of the schedulers. Every `/v1/*` request touches the
//! tracker. While the last touch lies further back than the idle threshold,
//! the schedulers park; the touch that ends such a gap wakes them.

use vstd::prelude::*;

use crate::time::{self, clamp_millis, now_ms, Duration, NANOS_PER_MILLI};

verus! {

/// The time of the last touch, in milliseconds since 1970 (zero before the
/// first one), and the idle threshold.
pub struct ActivityTracker {
    last_seen_ms: u64,
    idle_threshold_ms: u64,
}

/// What a touch found.
#[derive(Debug, Clone, Copy, PartialEq, Eq, Structural)]
pub struct Touch {
    /// Milliseconds since the touch before.
    pub gap: u64,
    /// The gap was longer than the idle threshold: wake the parked
    /// schedulers.
    pub wake: bool,
}

/// Milliseconds from `earlier` to `now`; zero where the clock went back.
pub open spec fn gap_ms(earlier: u64, now: u64) -> u64 {
    if earlier <= now {
        (now - earlier) as u64
    } else {
        0
    }
}

/// A tracker last touched at `last` counts as active at `now`.
pub open spec fn active(last: u64, threshold: u64, now: u64) -> bool {
    last != 0 && gap_ms(last, now) <= threshold
}

/// What a touch at `now` finds.
pub open spec fn touch_found(last: u64, threshold: u64, now: u64) -> Touch {
    Touch { gap: gap_ms(last, now), wake: gap_ms(last, now) > threshold }
}

/// A length of time in whole milliseconds, or `u64::MAX` where that does
/// not fit.
pub open spec fn threshold_of(d: nat) -> u64 {
    if d / NANOS_PER_MILLI as nat <= u64::MAX {
        (d / NANOS_PER_MILLI as nat) as u64
    } else {
        u64::MAX
    }
}

impl ActivityTracker {
    /// The time of the last touch; zero before the first one.
    pub closed spec fn last(self) -> u64 {
        self.last_seen_ms
    }

    /// The idle threshold in milliseconds.
    pub closed spec fn threshold(self) -> u64 {
        self.idle_threshold_ms
    }

    /// A tracker that was never touched.
    pub fn new(idle_threshold: Duration) -> (tracker: ActivityTracker)
        ensures
            tracker.last() == 0,
            tracker.threshold() == threshold_of(idle_threshold@),
    {
        ActivityTracker {
            last_seen_ms: 0,
            idle_threshold_ms: clamp_millis(idle_threshold.as_millis()),
        }
    }

    /// Record a touch at `now`.
    pub fn touch_at(&mut self, now: u64) -> (found: Touch)
        ensures
            found == touch_found(old(self).last(), old(self).threshold(), now),
            final(self).last() == now,
            final(self).threshold() == old(self).threshold(),
    {
        let gap: u64 = now.saturating_sub(self.last_seen_ms);
        self.last_seen_ms = now;
        Touch { gap, wake: gap > self.idle_threshold_ms }
    }

    /// Whether the last touch lies within the idle threshold of `now`.
    pub fn is_active_at(&self, now: u64) -> (is: bool)
        ensures
            is == active(self.last(), self.threshold(), now),
    {
        self.last_seen_ms != 0 && now.saturating_sub(self.last_seen_ms) <= self.idle_threshold_ms
    }

    /// Record a touch at present: the time recorded is a reading of the
    /// system clock.
    pub fn touch(&mut self) -> (found: Touch)
        ensures
            time::clock_reads(final(self).last()),
            found == touch_found(old(self).last(), old(self).threshold(), final(self).last()),
            final(self).threshold() == old(self).threshold(),
    {
        self.touch_at(now_ms())
    }

    /// Whether the last touch lies within the idle threshold of the
    /// present, by the system clock. Never so before the first touch.
    pub fn is_active(&self) -> (is: bool)
        ensures
            exists|now: u64|
                time::clock_reads(now) && is == #[trigger] active(
                    self.last(),
                    self.threshold(),
                    now,
                ),
    {
        self.is_active_at(now_ms())
    }
}

/// Before the first touch the schedulers stay parked, whatever the clock
/// says.
pub proof fn idle_before_first_touch(threshold: u64, now: u64)
    ensures
        !active(0, threshold, now),
{
}

/// After a touch the tracker counts as active exactly until the threshold
/// has passed.
pub proof fn active_after_touch(threshold: u64, touched: u64, now: u64)
    requires
        0 < touched <= now,
    ensures
        active(touched, threshold, now) <==> now - touched <= threshold,
{
}

/// A touch wakes the schedulers exactly where the tracker was not active.
/// The first touch of all does so where the clock reads more than the
/// threshold.
pub proof fn touch_wakes_the_idle(last: u64, threshold: u64, now: u64)
    requires
        last != 0 || now > threshold,
    ensures
        touch_found(last, threshold, now).wake <==> !active(last, threshold, now),
{
}

} // verus!
