//! Sets of fingerprints that forget what they hold after a fixed time.

use crate::timed_map::{is_live, TimedMap};
use crate::xor_name::XorName;
use vstd::prelude::*;

verus! {

/// The insertion times after `key` is inserted at `now`: what is no longer
/// live at `now` is forgotten, and `key` is stamped with `now`.
pub open spec fn filter_insert(times: Map<XorName, u64>, ttl: u64, key: XorName, now: u64) -> Map<
    XorName,
    u64,
> {
    Map::new(
        |k: XorName| k == key || (times.contains_key(k) && is_live(times[k], now, ttl)),
        |k: XorName|
            if k == key {
                now
            } else {
                times[k]
            },
    )
}

/// Whether `key` was inserted and is still live at `now`.
pub open spec fn filter_holds(times: Map<XorName, u64>, ttl: u64, key: XorName, now: u64) -> bool {
    times.contains_key(key) && is_live(times[key], now, ttl)
}

/// A key that is inserted at `now` is held from then until its time to live
/// has elapsed, and not after that.
pub proof fn lemma_insert_then_contains(
    times: Map<XorName, u64>,
    ttl: u64,
    key: XorName,
    now: u64,
    later: u64,
)
    ensures
        filter_holds(filter_insert(times, ttl, key, now), ttl, key, later) <==> later < now + ttl,
        now <= later && later - now < ttl ==> filter_holds(
            filter_insert(times, ttl, key, now),
            ttl,
            key,
            later,
        ),
        later - now >= ttl ==> !filter_holds(filter_insert(times, ttl, key, now), ttl, key, later),
{
}

/// Inserting a key does not disturb what the filter holds of other keys at
/// the time of the insertion or later.
pub proof fn lemma_insert_keeps_others(
    times: Map<XorName, u64>,
    ttl: u64,
    key: XorName,
    now: u64,
    other: XorName,
    later: u64,
)
    requires
        other != key,
        now <= later,
    ensures
        filter_holds(filter_insert(times, ttl, key, now), ttl, other, later) == filter_holds(
            times,
            ttl,
            other,
            later,
        ),
{
}

/// A set of fingerprints that forgets each of them a fixed time after it was
/// last inserted. Expiry is decided when the filter is asked or changed.
pub struct MessageFilter {
    entries: TimedMap<()>,
    ttl: u64,
}

impl MessageFilter {
    /// The invariant of the representation.
    pub closed spec fn wf(&self) -> bool {
        self.entries.wf()
    }

    /// The time at which each fingerprint was last inserted.
    pub closed spec fn times(&self) -> Map<XorName, u64> {
        Map::new(|k: XorName| self.entries@.contains_key(k), |k: XorName| self.entries@[k].0)
    }

    /// How long a fingerprint is held.
    pub closed spec fn time_to_live(&self) -> u64 {
        self.ttl
    }

    /// Whether the filter holds `key` at `now`.
    pub open spec fn holds(&self, key: XorName, now: u64) -> bool {
        filter_holds(self.times(), self.time_to_live(), key, now)
    }

    /// An empty filter that holds each fingerprint for `ttl`.
    pub fn with_expiry_duration(ttl: u64) -> (filter: MessageFilter)
        ensures
            filter.wf(),
            filter.times() == Map::<XorName, u64>::empty(),
            filter.time_to_live() == ttl,
    {
        let filter = MessageFilter { entries: TimedMap::new(), ttl };
        assert(filter.times() =~= Map::<XorName, u64>::empty());
        filter
    }

    /// Whether `key` was inserted less than the time to live before `now`.
    pub fn contains(&self, key: &XorName, now: u64) -> (r: bool)
        requires
            self.wf(),
        ensures
            r == self.holds(*key, now),
    {
        match self.entries.get(key) {
            Some(e) => crate::timed_map::live(e.time, now, self.ttl),
            None => false,
        }
    }

    /// Inserts `key` at `now` and says whether the filter held it already.
    pub fn insert(&mut self, key: XorName, now: u64) -> (seen: bool)
        requires
            old(self).wf(),
        ensures
            final(self).wf(),
            final(self).time_to_live() == old(self).time_to_live(),
            seen == old(self).holds(key, now),
            final(self).times() == filter_insert(
                old(self).times(),
                old(self).time_to_live(),
                key,
                now,
            ),
    {
        self.entries.remove_expired(now, self.ttl);
        let prev = self.entries.insert(key, now, ());
        assert(self.times() =~= filter_insert(old(self).times(), self.ttl, key, now));
        prev.is_some()
    }

    /// Number of fingerprints that are stored, expired ones included until
    /// the next insertion.
    pub fn len(&self) -> (n: usize)
        requires
            self.wf(),
        ensures
            n == self.times().dom().len(),
    {
        assert(self.times().dom() =~= self.entries@.dom());
        self.entries.len()
    }
}

} // verus!
