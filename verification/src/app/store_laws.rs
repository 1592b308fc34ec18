//! What the stores of the service keep, and for how long: the moment of the
//! last request, cached replies, payloads, and issued `state` values.

use vstd::prelude::*;

use crate::app::activity::{ActivityTracker, Touch};
use crate::app::cache::Cache;
use crate::app::scheduler::schedule;
use crate::app::snapshots::{self, EndpointKind, Snapshots};
use crate::app::state_store::{self, StateStore};
use crate::config::SchedulerIntervals;
use crate::json::Json;
use crate::random;
use crate::text;
use crate::time::{self, Duration};

verus! {

/// A new tracker was never touched, and its threshold is the given length
/// of time, in whole milliseconds as far as they fit.
pub proof fn a_new_tracker(idle_threshold: Duration, tracker: ActivityTracker)
    requires
        call_ensures(ActivityTracker::new, (idle_threshold,), tracker),
    ensures
        tracker.last() == 0,
        idle_threshold@ / 1_000_000 <= u64::MAX ==> tracker.threshold() == idle_threshold@
            / 1_000_000,
        idle_threshold@ / 1_000_000 > u64::MAX ==> tracker.threshold() == u64::MAX,
{
}

/// A touch finds how long it has been since the one before, and wakes the
/// schedulers exactly where that is longer than the threshold. It is the
/// last touch from then on, whether the clock went back or not.
pub proof fn a_touch_finds_the_gap(tracker: &mut ActivityTracker, now: u64, found: Touch)
    requires
        call_ensures(ActivityTracker::touch_at, (tracker, now), found),
    ensures
        old(tracker).last() <= now ==> found.gap == now - old(tracker).last(),
        old(tracker).last() > now ==> found.gap == 0,
        found.wake <==> found.gap > old(tracker).threshold(),
        final(tracker).last() == now,
        final(tracker).threshold() == old(tracker).threshold(),
{
}

/// A touch at present does the same, with a reading of the system clock.
pub proof fn a_touch_at_present(tracker: &mut ActivityTracker, found: Touch)
    requires
        call_ensures(ActivityTracker::touch, (tracker,), found),
    ensures
        time::clock_reads(final(tracker).last()),
        old(tracker).last() <= final(tracker).last() ==> found.gap == final(tracker).last() - old(
            tracker,
        ).last(),
        old(tracker).last() > final(tracker).last() ==> found.gap == 0,
        found.wake <==> found.gap > old(tracker).threshold(),
        final(tracker).threshold() == old(tracker).threshold(),
{
}

/// The tracker counts as active from its first touch on, for as long as the
/// threshold and not longer.
pub proof fn active_for_the_threshold(tracker: &ActivityTracker, now: u64, yes: bool)
    requires
        call_ensures(ActivityTracker::is_active_at, (tracker, now), yes),
    ensures
        yes <==> tracker.last() != 0 && now - tracker.last() <= tracker.threshold(),
{
}

/// At present too, by a reading of the system clock.
pub proof fn active_at_present(tracker: &ActivityTracker, yes: bool)
    requires
        call_ensures(ActivityTracker::is_active, (tracker,), yes),
    ensures
        tracker.last() == 0 ==> !yes,
        exists|now: u64| #[trigger]
            time::clock_reads(now) && (yes <==> tracker.last() != 0 && now - tracker.last()
                <= tracker.threshold()),
{
}

/// A new cache holds nothing.
pub proof fn a_new_cache_holds_nothing(cache: Cache, key: Seq<char>)
    requires
        call_ensures(Cache::new, (), cache) || call_ensures(Cache::default, (), cache),
    ensures
        !cache@.dom().contains(key),
{
}

/// A reply is served under its key until it expires, and nothing is served
/// under a key that has none.
pub proof fn replies_are_served_until_they_expire(
    cache: &Cache,
    key: &str,
    now: u128,
    value: Option<Json>,
)
    requires
        call_ensures(Cache::get_at, (cache, key, now), value),
    ensures
        value is Some <==> cache@.dom().contains(key@) && now < cache@[key@].expires_at,
        value matches Some(v) ==> v@ == cache@[key@].value,
{
}

/// So it is at present, by the clock that the cache was made with.
pub proof fn replies_are_served_at_present(cache: &Cache, key: &str, value: Option<Json>)
    requires
        call_ensures(Cache::get, (cache, key), value),
    ensures
        value is Some ==> cache@.dom().contains(key@),
        value matches Some(v) ==> v@ == cache@[key@].value,
        exists|now: u128| #[trigger]
            time::elapsed_reads(cache.origin(), now) && (value is Some <==> cache@.dom().contains(
                key@,
            ) && now < cache@[key@].expires_at),
{
}

/// A reply that is put expires when its time to live has passed, and
/// replaces what its key held; the other keys keep what they hold.
pub proof fn a_put_reply_expires_in_time(
    cache: &mut Cache,
    key: String,
    value: Json,
    ttl: Duration,
    now: u128,
    other: Seq<char>,
)
    requires
        now <= time::MAX_NANOS,
        call_ensures(Cache::put_at, (cache, key, value, ttl, now), ()),
    ensures
        final(cache)@.dom().contains(key@),
        final(cache)@[key@].value == value@,
        final(cache)@[key@].expires_at == now + ttl@,
        other != key@ ==> final(cache)@.dom().contains(other) == old(cache)@.dom().contains(other)
            && final(cache)@[other] == old(cache)@[other],
{
}

/// So it does where it is put at present.
pub proof fn a_reply_put_at_present(
    cache: &mut Cache,
    key: String,
    value: Json,
    ttl: Duration,
    other: Seq<char>,
)
    requires
        call_ensures(Cache::put, (cache, key, value, ttl), ()),
    ensures
        final(cache)@.dom().contains(key@),
        final(cache)@[key@].value == value@,
        exists|now: u128| #[trigger]
            time::elapsed_reads(old(cache).origin(), now) && final(cache)@[key@].expires_at == now
                + ttl@,
        final(cache).origin() == old(cache).origin(),
        other != key@ ==> final(cache)@.dom().contains(other) == old(cache)@.dom().contains(other)
            && final(cache)@[other] == old(cache)@[other],
{
}

/// What a cell means.
pub open spec fn held(cell: Option<Json>, payload: Option<Json>) -> bool {
    match (cell, payload) {
        (Some(a), Some(b)) => a@ == b@,
        (None, None) => true,
        _ => false,
    }
}

/// To store a payload for an endpoint fills the cell of that endpoint and
/// leaves the four others as they are.
pub proof fn one_cell_is_filled(store: &mut Snapshots, kind: EndpointKind, value: Option<Json>)
    requires
        call_ensures(Snapshots::set, (store, kind, value), ()),
    ensures
        held(final(store).now, if kind is Now { value } else { old(store).now }),
        held(final(store).recent, if kind is Recent { value } else { old(store).recent }),
        held(final(store).top, if kind is Top { value } else { old(store).top }),
        held(
            final(store).profile,
            if kind is Profile { value } else { old(store).profile },
        ),
        held(
            final(store).playlists,
            if kind is Playlists { value } else { old(store).playlists },
        ),
{
    assert(final(store).stored(EndpointKind::Now) == if kind is Now {
        snapshots::cell_view(value)
    } else {
        old(store).stored(EndpointKind::Now)
    });
    assert(final(store).stored(EndpointKind::Recent) == if kind is Recent {
        snapshots::cell_view(value)
    } else {
        old(store).stored(EndpointKind::Recent)
    });
    assert(final(store).stored(EndpointKind::Top) == if kind is Top {
        snapshots::cell_view(value)
    } else {
        old(store).stored(EndpointKind::Top)
    });
    assert(final(store).stored(EndpointKind::Profile) == if kind is Profile {
        snapshots::cell_view(value)
    } else {
        old(store).stored(EndpointKind::Profile)
    });
    assert(final(store).stored(EndpointKind::Playlists) == if kind is Playlists {
        snapshots::cell_view(value)
    } else {
        old(store).stored(EndpointKind::Playlists)
    });
}

/// Every endpoint has a loop of its own, at its own interval.
pub proof fn every_endpoint_has_its_loop(
    intervals: &SchedulerIntervals,
    loops: Vec<(EndpointKind, Duration)>,
)
    requires
        call_ensures(schedule, (intervals,), loops),
    ensures
        loops@.len() == 5,
        loops@[0] == (EndpointKind::Now, intervals.now),
        loops@[1] == (EndpointKind::Recent, intervals.recent),
        loops@[2] == (EndpointKind::Top, intervals.top),
        loops@[3] == (EndpointKind::Profile, intervals.profile),
        loops@[4] == (EndpointKind::Playlists, intervals.playlists),
{
}

/// In a new store no value is pending, and values will live for ten minutes
/// or for as long as was asked.
pub proof fn a_new_store(ttl: Duration, usual: StateStore, asked: StateStore, state: Seq<char>)
    requires
        call_ensures(StateStore::new, (), usual) || call_ensures(StateStore::default, (), usual),
        call_ensures(StateStore::with_ttl, (ttl,), asked),
    ensures
        !usual.pending().dom().contains(state),
        !asked.pending().dom().contains(state),
        usual.ttl() == 600 * 1_000_000_000,
        asked.ttl() == ttl@,
{
}

/// An issued value is pending until the time to live has passed; the others
/// stay as they are.
pub proof fn an_issued_value_is_pending(
    store: &mut StateStore,
    state: &str,
    now: u128,
    other: Seq<char>,
)
    requires
        now <= time::MAX_NANOS,
        call_ensures(StateStore::issue_at, (store, state, now), ()),
    ensures
        final(store).pending().dom().contains(state@),
        final(store).pending()[state@] == now + old(store).ttl(),
        final(store).ttl() == old(store).ttl(),
        other != state@ ==> final(store).pending().dom().contains(other)
            == old(store).pending().dom().contains(other) && final(store).pending()[other]
            == old(store).pending()[other],
{
}

/// A consumed value was live where it was pending and its time was not up;
/// it is gone either way, and the others stay as they are.
pub proof fn a_consumed_value_is_gone(
    store: &mut StateStore,
    state: &str,
    now: u128,
    live: bool,
    other: Seq<char>,
)
    requires
        call_ensures(StateStore::consume_at, (store, state, now), live),
    ensures
        live <==> old(store).pending().dom().contains(state@) && now
            < old(store).pending()[state@],
        !final(store).pending().dom().contains(state@),
        final(store).ttl() == old(store).ttl(),
        other != state@ ==> final(store).pending().dom().contains(other)
            == old(store).pending().dom().contains(other) && final(store).pending()[other]
            == old(store).pending()[other],
{
}

proof fn lemma_hex_length(bytes: Seq<u8>)
    ensures
        text::hex(bytes).len() == 2 * bytes.len(),
    decreases bytes.len(),
{
    if bytes.len() > 0 {
        lemma_hex_length(bytes.drop_last());
    }
}

/// A fresh value is 32 hexadecimal digits of sixteen random bytes. It is
/// pending from the present on, by the store's own clock.
pub proof fn a_fresh_value_is_pending(store: &mut StateStore, state: String, other: Seq<char>)
    requires
        call_ensures(StateStore::issue, (store,), state),
    ensures
        state@.len() == 32,
        exists|bytes: Seq<u8>| #[trigger] random::bytes_drawn(bytes) && state@ == text::hex(bytes),
        final(store).pending().dom().contains(state@),
        exists|now: u128| #[trigger]
            time::elapsed_reads(old(store).origin(), now) && final(store).pending()[state@] == now
                + old(store).ttl(),
        other != state@ ==> final(store).pending().dom().contains(other)
            == old(store).pending().dom().contains(other) && final(store).pending()[other]
            == old(store).pending()[other],
{
    let bytes = choose|bytes: Seq<u8>|
        bytes.len() == 16 && random::bytes_drawn(bytes) && state@ == #[trigger] text::hex(bytes);
    lemma_hex_length(bytes);
}

/// What is consumed at present was live where its time was not up, by the
/// store's own clock. It is gone either way.
pub proof fn a_value_consumed_at_present(
    store: &mut StateStore,
    state: &str,
    live: bool,
    other: Seq<char>,
)
    requires
        call_ensures(StateStore::consume, (store, state), live),
    ensures
        live ==> old(store).pending().dom().contains(state@),
        exists|now: u128| #[trigger]
            time::elapsed_reads(old(store).origin(), now) && (live <==> old(
                store,
            ).pending().dom().contains(state@) && now < old(store).pending()[state@]),
        !final(store).pending().dom().contains(state@),
        other != state@ ==> final(store).pending().dom().contains(other)
            == old(store).pending().dom().contains(other) && final(store).pending()[other]
            == old(store).pending()[other],
{
    let now = choose|now: u128|
        now <= time::MAX_NANOS && time::elapsed_reads(old(store).origin(), now) && live
            == #[trigger] state_store::is_live(old(store).pending(), state@, now);
    assert(time::elapsed_reads(old(store).origin(), now));
}

} // verus!
