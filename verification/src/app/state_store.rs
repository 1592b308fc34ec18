//! Live OAuth `state` values. A login issues one, the callback consumes it.
//! A value counts once, and only until its time is up.

use vstd::hash_map::StringHashMap;
use vstd::prelude::*;

use std::time::Instant;

use crate::random::{self, draw_bytes};
use crate::text::{self, hex_text};
use crate::time::{self, elapsed, instant, Duration, MAX_NANOS};

verus! {

/// How long an issued value stays live, in seconds.
pub const DEFAULT_TTL_SECS: u64 = 600;

/// The issued values that nobody has consumed, each with the time at which
/// it expires. Times are nanoseconds since the store was made.
pub struct StateStore {
    ttl: Duration,
    start: Instant,
    entries: StringHashMap<u128>,
}

/// What is pending after `state` is issued at time `now`.
pub open spec fn after_issue(
    pending: Map<Seq<char>, u128>,
    state: Seq<char>,
    now: u128,
    ttl: nat,
) -> Map<Seq<char>, u128> {
    pending.insert(state, (now + ttl) as u128)
}

/// Whether `state` is live at time `now`: issued, not consumed, not expired.
pub open spec fn is_live(pending: Map<Seq<char>, u128>, state: Seq<char>, now: u128) -> bool {
    pending.dom().contains(state) && now < pending[state]
}

/// What is pending after `state` is consumed.
pub open spec fn after_consume(
    pending: Map<Seq<char>, u128>,
    state: Seq<char>,
) -> Map<Seq<char>, u128> {
    pending.remove(state)
}

impl StateStore {
    /// The unconsumed values with their expiry times.
    pub closed spec fn pending(self) -> Map<Seq<char>, u128> {
        self.entries@
    }

    /// How long a value stays live, in nanoseconds.
    pub closed spec fn ttl(self) -> nat {
        self.ttl@
    }

    /// The moment from which times are counted.
    pub closed spec fn origin(self) -> Instant {
        self.start
    }

    pub fn new() -> (store: StateStore)
        ensures
            store.pending() == Map::<Seq<char>, u128>::empty(),
            store.ttl() == 600_000_000_000,
            time::instant_reads(store.origin()),
    {
        StateStore::with_ttl(Duration::from_secs(DEFAULT_TTL_SECS))
    }

    pub fn with_ttl(ttl: Duration) -> (store: StateStore)
        ensures
            store.pending() == Map::<Seq<char>, u128>::empty(),
            store.ttl() == ttl@,
            time::instant_reads(store.origin()),
    {
        StateStore { ttl, start: instant(), entries: StringHashMap::new() }
    }

    /// Record `state` as issued at time `now`.
    pub fn issue_at(&mut self, state: &str, now: u128)
        requires
            now <= MAX_NANOS,
        ensures
            final(self).pending() == after_issue(old(self).pending(), state@, now, old(self).ttl()),
            final(self).ttl() == old(self).ttl(),
            final(self).origin() == old(self).origin(),
            now + old(self).ttl() <= u128::MAX,
    {
        let expiry: u128 = now + self.ttl.as_nanos();
        self.entries.insert(state.to_owned(), expiry);
    }

    /// Whether `state` is live at time `now`. Live or not, it is gone
    /// afterwards.
    pub fn consume_at(&mut self, state: &str, now: u128) -> (live: bool)
        ensures
            live == is_live(old(self).pending(), state@, now),
            final(self).pending() == after_consume(old(self).pending(), state@),
            final(self).ttl() == old(self).ttl(),
            final(self).origin() == old(self).origin(),
    {
        let live = match self.entries.get(state) {
            Some(expiry) => now < *expiry,
            None => false,
        };
        self.entries.remove(state);
        live
    }

    /// Issue a fresh random value: sixteen bytes by chance, in hexadecimal.
    /// It expires when the time to live has passed from the present, by the
    /// clock that the store was made with.
    pub fn issue(&mut self) -> (state: String)
        ensures
            exists|bytes: Seq<u8>|
                bytes.len() == 16 && random::bytes_drawn(bytes) && state@ == #[trigger] text::hex(
                    bytes,
                ),
            exists|now: u128|
                now <= MAX_NANOS && time::elapsed_reads(old(self).origin(), now)
                    && now + old(self).ttl() <= u128::MAX && final(self).pending() == #[trigger] after_issue(
                    old(self).pending(),
                    state@,
                    now,
                    old(self).ttl(),
                ),
            final(self).ttl() == old(self).ttl(),
            final(self).origin() == old(self).origin(),
    {
        let state = random_state();
        let now: u128 = elapsed(&self.start);
        self.issue_at(state.as_str(), now);
        state
    }

    /// True exactly where `state` is live at present, by the clock that the
    /// store was made with. Live or not, it is
    /// gone afterwards.
    pub fn consume(&mut self, state: &str) -> (live: bool)
        ensures
            exists|now: u128|
                now <= MAX_NANOS && time::elapsed_reads(old(self).origin(), now) && live
                    == #[trigger] is_live(old(self).pending(), state@, now),
            final(self).pending() == after_consume(old(self).pending(), state@),
            final(self).ttl() == old(self).ttl(),
            final(self).origin() == old(self).origin(),
    {
        let now: u128 = elapsed(&self.start);
        self.consume_at(state, now)
    }
}

impl Default for StateStore {
    fn default() -> (store: StateStore)
        ensures
            store.pending() == Map::<Seq<char>, u128>::empty(),
            store.ttl() == 600_000_000_000,
            time::instant_reads(store.origin()),
    {
        StateStore::new()
    }
}

fn random_state() -> (state: String)
    ensures
        exists|bytes: Seq<u8>|
            bytes.len() == 16 && random::bytes_drawn(bytes) && state@ == #[trigger] text::hex(bytes),
{
    let bytes = draw_bytes();
    let state = hex_text(&bytes);
    assert(bytes@.len() == 16);
    state
}

/// A value is good for one use: whenever it is consumed, it is not live at
/// any time afterwards.
pub proof fn consumed_once(pending: Map<Seq<char>, u128>, state: Seq<char>, later: u128)
    ensures
        !is_live(after_consume(pending, state), state, later),
{
}

/// An issued value is live exactly until the time to live has passed. With
/// a time to live of zero it never is.
pub proof fn issued_until_expiry(
    pending: Map<Seq<char>, u128>,
    state: Seq<char>,
    ttl: nat,
    issued: u128,
    later: u128,
)
    requires
        issued + ttl <= u128::MAX,
        issued <= later,
    ensures
        is_live(after_issue(pending, state, issued, ttl), state, later) <==> later - issued < ttl,
{
}

/// To issue or consume one value changes nothing for another.
pub proof fn other_states_untouched(
    pending: Map<Seq<char>, u128>,
    state: Seq<char>,
    other: Seq<char>,
    ttl: nat,
    now: u128,
    later: u128,
)
    requires
        state != other,
    ensures
        is_live(after_issue(pending, state, now, ttl), other, later) == is_live(
            pending,
            other,
            later,
        ),
        is_live(after_consume(pending, state), other, later) == is_live(pending, other, later),
{
}

/// A value that was never issued is not live.
pub proof fn unknown_is_not_live(state: Seq<char>, now: u128)
    ensures
        !is_live(Map::<Seq<char>, u128>::empty(), state, now),
{
}

} // verus!
