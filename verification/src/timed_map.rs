//! A map from names to values whose records carry the time of their writing.

use crate::xor_name::XorName;
use vstd::prelude::*;

verus! {

/// One record of a `TimedMap`: what is stored under `key`, and when it was
/// stored or last refreshed.
#[derive(Clone, Debug, PartialEq, Eq)]
pub struct Entry<V> {
    pub key: XorName,
    pub time: u64,
    pub value: V,
}

/// Whether something stored at `inserted` with a given time to live is still
/// valid at `now`. A clock reading before `inserted` counts as valid.
pub open spec fn is_live(inserted: u64, now: u64, ttl: u64) -> bool {
    now < inserted + ttl
}

/// Executable form of `is_live`.
pub fn live(inserted: u64, now: u64, ttl: u64) -> (r: bool)
    ensures
        r == is_live(inserted, now, ttl),
{
    now < inserted || now - inserted < ttl
}

/// The map that a list of records stands for; a later record wins.
pub open spec fn to_map<V>(s: Seq<Entry<V>>) -> Map<XorName, (u64, V)>
    decreases s.len(),
{
    if s.len() == 0 {
        Map::empty()
    } else {
        to_map(s.drop_last()).insert(s.last().key, (s.last().time, s.last().value))
    }
}

/// No key occurs twice.
pub open spec fn distinct_keys<V>(s: Seq<Entry<V>>) -> bool {
    forall|i: int, j: int| 0 <= i < j < s.len() ==> s[i].key != s[j].key
}

pub proof fn lemma_to_map_contains<V>(s: Seq<Entry<V>>, k: XorName)
    ensures
        to_map(s).contains_key(k) <==> exists|i: int| 0 <= i < s.len() && s[i].key == k,
    decreases s.len(),
{
    if s.len() > 0 {
        let d = s.drop_last();
        lemma_to_map_contains(d, k);
        if to_map(s).contains_key(k) {
            if s.last().key == k {
                assert(s[s.len() - 1].key == k);
            } else {
                let i = choose|i: int| 0 <= i < d.len() && d[i].key == k;
                assert(s[i].key == k);
            }
        }
        if exists|i: int| 0 <= i < s.len() && s[i].key == k {
            let i = choose|i: int| 0 <= i < s.len() && s[i].key == k;
            if i < s.len() - 1 {
                assert(d[i].key == k);
            }
        }
    }
}

pub proof fn lemma_to_map_lookup<V>(s: Seq<Entry<V>>, i: int)
    requires
        distinct_keys(s),
        0 <= i < s.len(),
    ensures
        to_map(s).contains_key(s[i].key),
        to_map(s)[s[i].key] == (s[i].time, s[i].value),
    decreases s.len(),
{
    if i < s.len() - 1 {
        let d = s.drop_last();
        assert(d[i] == s[i]);
        lemma_to_map_lookup(d, i);
    }
}

pub proof fn lemma_to_map_absent<V>(s: Seq<Entry<V>>, k: XorName)
    requires
        forall|i: int| 0 <= i < s.len() ==> s[i].key != k,
    ensures
        !to_map(s).contains_key(k),
{
    lemma_to_map_contains(s, k);
}

pub proof fn lemma_to_map_push<V>(s: Seq<Entry<V>>, e: Entry<V>)
    ensures
        to_map(s.push(e)) == to_map(s).insert(e.key, (e.time, e.value)),
{
    assert(s.push(e).drop_last() =~= s);
}

pub proof fn lemma_to_map_remove<V>(s: Seq<Entry<V>>, i: int)
    requires
        distinct_keys(s),
        0 <= i < s.len(),
    ensures
        to_map(s.remove(i)) =~= to_map(s).remove(s[i].key),
        distinct_keys(s.remove(i)),
    decreases s.len(),
{
    let d = s.drop_last();
    if i == s.len() - 1 {
        assert(s.remove(i) =~= d);
        lemma_to_map_absent(d, s[i].key);
    } else {
        assert(s.remove(i).drop_last() =~= d.remove(i));
        assert(s.remove(i).last() == s.last());
        assert(d[i] == s[i]);
        lemma_to_map_remove(d, i);
    }
}

pub proof fn lemma_to_map_len<V>(s: Seq<Entry<V>>)
    requires
        distinct_keys(s),
    ensures
        to_map(s).dom().finite(),
        to_map(s).dom().len() == s.len(),
    decreases s.len(),
{
    if s.len() > 0 {
        let d = s.drop_last();
        lemma_to_map_len(d);
        lemma_to_map_absent(d, s.last().key);
    }
}

/// A map from names to values in which every record carries the time at
/// which it was written, so that callers can let records expire.
pub struct TimedMap<V> {
    entries: Vec<Entry<V>>,
}

impl<V> View for TimedMap<V> {
    type V = Map<XorName, (u64, V)>;

    closed spec fn view(&self) -> Map<XorName, (u64, V)> {
        to_map(self.entries@)
    }
}

impl<V> TimedMap<V> {
    /// The invariant of the representation: one record per key.
    pub closed spec fn wf(&self) -> bool {
        distinct_keys(self.entries@)
    }

    /// The records in the order in which they were last written.
    pub closed spec fn records(&self) -> Seq<Entry<V>> {
        self.entries@
    }

    /// An empty map.
    pub fn new() -> (m: Self)
        ensures
            m.wf(),
            m@ == Map::<XorName, (u64, V)>::empty(),
            m.records().len() == 0,
    {
        TimedMap { entries: Vec::new() }
    }

    /// Number of keys.
    pub fn len(&self) -> (n: usize)
        requires
            self.wf(),
        ensures
            n == self@.dom().len(),
            n == self.records().len(),
    {
        proof {
            lemma_to_map_len(self.entries@);
        }
        self.entries.len()
    }

    /// The record at position `i` of `records()`.
    pub fn record(&self, i: usize) -> (e: &Entry<V>)
        requires
            i < self.records().len(),
        ensures
            *e == self.records()[i as int],
    {
        &self.entries[i]
    }

    /// Position of `key` among the records.
    pub fn position(&self, key: &XorName) -> (r: Option<usize>)
        requires
            self.wf(),
        ensures
            match r {
                Some(i) => i < self.records().len() && self.records()[i as int].key == *key
                    && self@.contains_key(*key) && self@[*key] == (
                    self.records()[i as int].time,
                    self.records()[i as int].value,
                ),
                None => !self@.contains_key(*key),
            },
    {
        let mut i: usize = 0;
        while i < self.entries.len()
            invariant
                self.wf(),
                0 <= i <= self.entries.len(),
                forall|j: int| 0 <= j < i ==> self.entries@[j].key != *key,
            decreases self.entries.len() - i,
        {
            if self.entries[i].key.same(key) {
                proof {
                    lemma_to_map_lookup(self.entries@, i as int);
                }
                return Some(i);
            }
            i += 1;
        }
        proof {
            lemma_to_map_absent(self.entries@, *key);
        }
        None
    }

    /// The record stored under `key`, if any.
    pub fn get(&self, key: &XorName) -> (r: Option<&Entry<V>>)
        requires
            self.wf(),
        ensures
            match r {
                Some(e) => self@.contains_key(*key) && e.key == *key && self@[*key] == (
                    e.time,
                    e.value,
                ),
                None => !self@.contains_key(*key),
            },
    {
        match self.position(key) {
            Some(i) => Some(&self.entries[i]),
            None => None,
        }
    }

    /// Whether `key` has a record.
    pub fn contains_key(&self, key: &XorName) -> (r: bool)
        requires
            self.wf(),
        ensures
            r == self@.contains_key(*key),
    {
        self.position(key).is_some()
    }

    /// Stores `value` under `key` with time stamp `time`, and gives back the
    /// record that was there before.
    pub fn insert(&mut self, key: XorName, time: u64, value: V) -> (prev: Option<Entry<V>>)
        requires
            old(self).wf(),
        ensures
            final(self).wf(),
            final(self)@ == old(self)@.insert(key, (time, value)),
            match prev {
                Some(e) => old(self)@.contains_key(key) && e.key == key && old(self)@[key] == (
                    e.time,
                    e.value,
                ),
                None => !old(self)@.contains_key(key),
            },
    {
        let prev = self.remove(&key);
        proof {
            lemma_to_map_push(self.entries@, Entry { key, time, value });
            lemma_to_map_contains(self.entries@, key);
            assert(old(self)@.remove(key).insert(key, (time, value)) =~= old(self)@.insert(
                key,
                (time, value),
            ));
        }
        self.entries.push(Entry { key, time, value });
        prev
    }

    /// Removes the record of `key` and gives it back.
    pub fn remove(&mut self, key: &XorName) -> (prev: Option<Entry<V>>)
        requires
            old(self).wf(),
        ensures
            final(self).wf(),
            final(self)@ == old(self)@.remove(*key),
            match prev {
                Some(e) => old(self)@.contains_key(*key) && e.key == *key && old(self)@[*key] == (
                    e.time,
                    e.value,
                ),
                None => !old(self)@.contains_key(*key),
            },
    {
        match self.position(key) {
            Some(i) => {
                proof {
                    lemma_to_map_remove(self.entries@, i as int);
                }
                let e = self.entries.remove(i);
                Some(e)
            },
            None => {
                assert(self@.remove(*key) =~= self@);
                None
            },
        }
    }

    /// Removes every record that is no longer live at `now`.
    pub fn remove_expired(&mut self, now: u64, ttl: u64)
        requires
            old(self).wf(),
        ensures
            final(self).wf(),
            forall|k: XorName|
                final(self)@.contains_key(k) <==> old(self)@.contains_key(k) && is_live(
                    old(self)@[k].0,
                    now,
                    ttl,
                ),
            forall|k: XorName| final(self)@.contains_key(k) ==> final(self)@[k] == old(self)@[k],
    {
        let ghost orig = self@;
        let mut i: usize = 0;
        while i < self.entries.len()
            invariant
                self.wf(),
                0 <= i <= self.entries.len(),
                forall|j: int| 0 <= j < i ==> is_live(self.entries@[j].time, now, ttl),
                forall|k: XorName| #[trigger]
                    self@.contains_key(k) ==> orig.contains_key(k) && self@[k] == orig[k],
                forall|k: XorName|
                    orig.contains_key(k) && is_live(orig[k].0, now, ttl) ==> #[trigger] self@.contains_key(
                        k,
                    ),
            decreases self.entries.len() - i,
        {
            if live(self.entries[i].time, now, ttl) {
                i += 1;
            } else {
                let ghost before = self.entries@;
                let ghost gone = before[i as int].key;
                proof {
                    assert(self@ == to_map(before));
                    lemma_to_map_remove(before, i as int);
                    lemma_to_map_lookup(before, i as int);
                }
                let _ = self.entries.remove(i);
                proof {
                    assert(self.entries@ == before.remove(i as int));
                    assert(self@ == to_map(before).remove(gone));
                    assert(!is_live(to_map(before)[gone].0, now, ttl));
                    assert forall|k: XorName| #[trigger] self@.contains_key(k) implies orig.contains_key(k)
                        && self@[k] == orig[k] by {
                        assert(to_map(before).contains_key(k));
                    }
                    assert forall|k: XorName|
                        orig.contains_key(k) && is_live(orig[k].0, now, ttl) implies #[trigger] self@.contains_key(
                        k,
                    ) by {
                        assert(to_map(before).contains_key(k));
                        assert(k != gone);
                    }
                }
            }
        }
        proof {
            assert forall|k: XorName| self@.contains_key(k) implies is_live(orig[k].0, now, ttl) by {
                lemma_to_map_contains(self.entries@, k);
                let j = choose|j: int| 0 <= j < self.entries@.len() && self.entries@[j].key == k;
                lemma_to_map_lookup(self.entries@, j);
            }
        }
    }
}

} // verus!
