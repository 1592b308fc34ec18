//! Cache of upstream replies, each for its time to live. It lives in memory
//! only. An expired entry stays until the next `put` overwrites it, and is
//! not served meanwhile.

use vstd::hash_map::StringHashMap;
use vstd::prelude::*;

use std::time::Instant;

use crate::json::{Json, JsonView};
use crate::time::{self, elapsed, instant, Duration, MAX_NANOS};

verus! {

struct Entry {
    value: Json,
    expires_at: u128,
}

/// A cached reply and the time at which it expires.
pub struct CachedView {
    pub value: JsonView,
    pub expires_at: u128,
}

/// Replies under their keys. Times are nanoseconds since the cache was
/// made.
pub struct Cache {
    start: Instant,
    map: StringHashMap<Entry>,
}

/// What a cache serves under `key` at time `now`.
pub open spec fn served(
    cached: Map<Seq<char>, CachedView>,
    key: Seq<char>,
    now: u128,
) -> Option<JsonView> {
    if cached.dom().contains(key) && now < cached[key].expires_at {
        Some(cached[key].value)
    } else {
        None
    }
}

/// What a cache holds after `value` is put under `key` at time `now`.
pub open spec fn after_put(
    cached: Map<Seq<char>, CachedView>,
    key: Seq<char>,
    value: JsonView,
    ttl: nat,
    now: u128,
) -> Map<Seq<char>, CachedView> {
    cached.insert(key, CachedView { value, expires_at: (now + ttl) as u128 })
}

impl View for Cache {
    type V = Map<Seq<char>, CachedView>;

    closed spec fn view(&self) -> Map<Seq<char>, CachedView> {
        self.map@.map_values(
            |e: Entry| CachedView { value: e.value@, expires_at: e.expires_at },
        )
    }
}

impl Cache {
    /// The moment from which times are counted.
    pub closed spec fn origin(self) -> Instant {
        self.start
    }

    pub fn new() -> (cache: Cache)
        ensures
            cache@ == Map::<Seq<char>, CachedView>::empty(),
            time::instant_reads(cache.origin()),
    {
        let cache = Cache { start: instant(), map: StringHashMap::new() };
        assert(cache@ =~= Map::<Seq<char>, CachedView>::empty());
        cache
    }

    /// The value under `key`, where there is one that has not expired at
    /// time `now`.
    pub fn get_at(&self, key: &str, now: u128) -> (value: Option<Json>)
        ensures
            match value {
                Some(v) => served(self@, key@, now) == Some(v@),
                None => served(self@, key@, now) is None,
            },
    {
        match self.map.get(key) {
            Some(entry) => if entry.expires_at > now {
                Some(entry.value.copy())
            } else {
                None
            },
            None => None,
        }
    }

    /// Hold `value` under `key` for `ttl` from time `now` on.
    pub fn put_at(&mut self, key: String, value: Json, ttl: Duration, now: u128)
        requires
            now <= MAX_NANOS,
        ensures
            final(self)@ == after_put(old(self)@, key@, value@, ttl@, now),
            final(self).origin() == old(self).origin(),
            now + ttl@ <= u128::MAX,
    {
        let expires_at: u128 = now + ttl.as_nanos();
        self.map.insert(key, Entry { value, expires_at });
        assert(self@ =~= after_put(old(self)@, key@, value@, ttl@, now));
    }

    /// The value under `key`, where there is one that has not expired by
    /// now.
    pub fn get(&self, key: &str) -> (value: Option<Json>)
        ensures
            exists|now: u128|
                now <= MAX_NANOS && time::elapsed_reads(self.origin(), now) && match value {
                    Some(v) => #[trigger] served(self@, key@, now) == Some(v@),
                    None => served(self@, key@, now) is None,
                },
    {
        let now: u128 = elapsed(&self.start);
        self.get_at(key, now)
    }

    /// Hold `value` under `key` for `ttl` from now on.
    pub fn put(&mut self, key: String, value: Json, ttl: Duration)
        ensures
            exists|now: u128|
                now <= MAX_NANOS && time::elapsed_reads(old(self).origin(), now) && now + ttl@
                    <= u128::MAX && final(self)@ == #[trigger] after_put(
                    old(self)@,
                    key@,
                    value@,
                    ttl@,
                    now,
                ),
            final(self).origin() == old(self).origin(),
    {
        let now: u128 = elapsed(&self.start);
        self.put_at(key, value, ttl, now);
    }
}

impl Default for Cache {
    fn default() -> (cache: Cache)
        ensures
            cache@ == Map::<Seq<char>, CachedView>::empty(),
            time::instant_reads(cache.origin()),
    {
        Cache::new()
    }
}

/// Within its time to live a cached value is served; from then on nothing
/// is.
pub proof fn served_within_ttl(
    cached: Map<Seq<char>, CachedView>,
    key: Seq<char>,
    value: JsonView,
    ttl: nat,
    put: u128,
    later: u128,
)
    requires
        put + ttl <= u128::MAX,
        put <= later,
    ensures
        served(after_put(cached, key, value, ttl, put), key, later) == if later - put < ttl {
            Some(value)
        } else {
            None
        },
{
}

/// To put one value changes nothing under another key.
pub proof fn other_keys_untouched(
    cached: Map<Seq<char>, CachedView>,
    key: Seq<char>,
    other: Seq<char>,
    value: JsonView,
    ttl: nat,
    put: u128,
    later: u128,
)
    requires
        key != other,
    ensures
        served(after_put(cached, key, value, ttl, put), other, later) == served(
            cached,
            other,
            later,
        ),
{
}

} // verus!
