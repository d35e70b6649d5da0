//! A request cache that keeps simultaneous fetches of one endpoint from
//! being made twice, and serves a fetched result for a time-to-live.
//!
//! Time is counted in milliseconds on a monotonic clock; the `*_at`
//! function takes it as an argument and is specified exactly.
use vstd::prelude::*;
use crate::clock::{duration_millis, millis_of_duration, millis_since, monotonic_now};
use crate::gateway::middleware::{distinct_keys, fresh, has_key, key_pos, set_key};

verus! {

/// `Value::clone`: a copy of a JSON value, equal to it.
#[verifier::external_body]
fn clone_value(v: &serde_json::Value) -> (r: serde_json::Value)
    ensures
        r == *v,
{
    v.clone()
}

/// What the cache holds for a key.
#[derive(Debug)]
pub struct CacheSlot {
    /// The last result fetched, where there is one.
    pub data: Option<serde_json::Value>,
    /// When the slot was last marked for fetching (milliseconds).
    pub stamp: u64,
    /// A fetch is in flight.
    pub pending: bool,
}

/// The keys of a cache with their slots.
pub type CacheTable = Seq<(Seq<char>, CacheSlot)>;

/// Looking `key` up at `now`: the new table and what is served. A fresh
/// slot serves its data unless a fetch is in flight; an expired slot is
/// marked for fetching (its stamp renewed) and serves nothing; a new key
/// gets a slot marked for fetching.
pub open spec fn lookup_step(es: CacheTable, key: Seq<char>, now: u64, ttl: u64) -> (CacheTable, Option<serde_json::Value>) {
    if has_key(es, key) {
        let s = es[key_pos(es, key)].1;
        if fresh(s.stamp, now, ttl) {
            if s.pending {
                (es, None)
            } else {
                (es, s.data)
            }
        } else {
            (set_key(es, key, CacheSlot { data: s.data, stamp: now, pending: true }), None)
        }
    } else {
        (es.push((key, CacheSlot { data: None, stamp: now, pending: true })), None)
    }
}

/// Storing a fetched result for `key`: its slot holds `data` and is no
/// longer pending; nothing happens to a key without a slot.
pub open spec fn put_step(es: CacheTable, key: Seq<char>, data: serde_json::Value) -> CacheTable {
    if has_key(es, key) {
        let s = es[key_pos(es, key)].1;
        set_key(es, key, CacheSlot { data: Some(data), stamp: s.stamp, pending: false })
    } else {
        es
    }
}

/// A failed fetch of `key`: its slot is no longer pending.
pub open spec fn fail_step(es: CacheTable, key: Seq<char>) -> CacheTable {
    if has_key(es, key) {
        let s = es[key_pos(es, key)].1;
        set_key(es, key, CacheSlot { data: s.data, stamp: s.stamp, pending: false })
    } else {
        es
    }
}

/// The request cache.
#[derive(Debug)]
pub struct RequestCache {
    entries: Vec<(String, CacheSlot)>,
    ttl_ms: u64,
    origin: std::time::Instant,
}

/// The table held by a vector of entries.
pub closed spec fn cache_table(v: Seq<(String, CacheSlot)>) -> CacheTable {
    Seq::new(v.len(), |i: int| (v[i].0@, v[i].1))
}

impl RequestCache {
    /// The keys with their slots.
    pub closed spec fn table(&self) -> CacheTable {
        cache_table(self.entries@)
    }

    /// The time-to-live, in milliseconds.
    pub closed spec fn ttl(&self) -> u64 {
        self.ttl_ms
    }

    /// No key occurs twice.
    pub open spec fn wf(&self) -> bool {
        distinct_keys(self.table())
    }

    /// An empty cache whose results live for `ttl`.
    pub fn new(ttl: std::time::Duration) -> (c: Self)
        ensures
            c.wf(),
            c.table() == CacheTable::empty(),
            c.ttl() == millis_of_duration(ttl),
    {
        let c = RequestCache { entries: Vec::new(), ttl_ms: duration_millis(&ttl), origin: monotonic_now() };
        assert(c.table() =~= CacheTable::empty());
        c
    }

    fn find(&self, key: &String) -> (r: Option<usize>)
        ensures
            match r {
                Some(i) => i < self.entries@.len() && self.table()[i as int].0 == key@,
                None => !has_key(self.table(), key@),
            },
    {
        let mut i: usize = 0;
        while i < self.entries.len()
            invariant
                i <= self.entries@.len(),
                forall|j: int| 0 <= j < i ==> self.table()[j].0 != key@,
            decreases self.entries.len() - i,
        {
            if self.entries[i].0 == *key {
                return Some(i);
            }
            i += 1;
        }
        None
    }

    fn replace_slot(&mut self, i: usize, slot: CacheSlot)
        requires
            i < old(self).entries@.len(),
        ensures
            final(self).table() == old(self).table().update(i as int, (old(self).table()[i as int].0, slot)),
            final(self).ttl() == old(self).ttl(),
    {
        let (k, _old) = self.entries.remove(i);
        let ghost t = self.entries@;
        self.entries.insert(i, (k, slot));
        assert(self.table() =~= old(self).table().update(i as int, (old(self).table()[i as int].0, slot)));
    }

    /// Looks `key` up at `now_ms`: the data to serve, if any, marking the
    /// key for fetching where nothing fresh is held.
    pub fn try_get_or_mark_pending_at(&mut self, key: &str, now_ms: u64) -> (r: Option<serde_json::Value>)
        requires
            old(self).wf(),
        ensures
            final(self).wf(),
            final(self).ttl() == old(self).ttl(),
            (final(self).table(), r) == lookup_step(old(self).table(), key@, now_ms, old(self).ttl()),
    {
        let k = key.to_owned();
        match self.find(&k) {
            Some(i) => {
                proof { crate::gateway::middleware::lemma_key_pos(self.table(), i as int); }
                let stamp = self.entries[i].1.stamp;
                let is_fresh = if stamp >= now_ms { 0 < self.ttl_ms } else { now_ms - stamp < self.ttl_ms };
                if is_fresh {
                    if self.entries[i].1.pending {
                        None
                    } else {
                        match &self.entries[i].1.data {
                            Some(d) => Some(clone_value(d)),
                            None => None,
                        }
                    }
                } else {
                    let data = match &self.entries[i].1.data {
                        Some(d) => Some(clone_value(d)),
                        None => None,
                    };
                    self.replace_slot(i, CacheSlot { data, stamp: now_ms, pending: true });
                    proof { crate::gateway::middleware::lemma_set_key(old(self).table(), key@, CacheSlot { data, stamp: now_ms, pending: true }); }
                    None
                }
            },
            None => {
                let ghost t = self.table();
                self.entries.push((k, CacheSlot { data: None, stamp: now_ms, pending: true }));
                assert(self.table() =~= t.push((key@, CacheSlot { data: None, stamp: now_ms, pending: true })));
                proof { crate::gateway::middleware::lemma_set_key(t, key@, CacheSlot { data: None, stamp: now_ms, pending: true }); }
                None
            },
        }
    }

    /// Looks `key` up now: the data to serve, if any, marking the key for
    /// fetching where nothing fresh is held.
    pub fn try_get_or_mark_pending(&mut self, key: &str) -> (r: Option<serde_json::Value>)
        requires
            old(self).wf(),
        ensures
            final(self).wf(),
            final(self).ttl() == old(self).ttl(),
            exists|now: u64| (final(self).table(), r) == #[trigger] lookup_step(old(self).table(), key@, now, old(self).ttl()),
    {
        let now = millis_since(&self.origin);
        self.try_get_or_mark_pending_at(key, now)
    }

    /// Stores the fetched `data` for `key` and ends its fetch.
    pub fn put_and_ready(&mut self, key: &str, data: serde_json::Value)
        requires
            old(self).wf(),
        ensures
            final(self).wf(),
            final(self).ttl() == old(self).ttl(),
            final(self).table() == put_step(old(self).table(), key@, data),
    {
        let k = key.to_owned();
        match self.find(&k) {
            Some(i) => {
                proof { crate::gateway::middleware::lemma_key_pos(self.table(), i as int); }
                let stamp = self.entries[i].1.stamp;
                self.replace_slot(i, CacheSlot { data: Some(data), stamp, pending: false });
                proof { crate::gateway::middleware::lemma_set_key(old(self).table(), key@, CacheSlot { data: Some(data), stamp, pending: false }); }
            },
            None => {},
        }
    }

    /// Ends a failed fetch of `key`, so that another may be made.
    pub fn mark_failed(&mut self, key: &str)
        requires
            old(self).wf(),
        ensures
            final(self).wf(),
            final(self).ttl() == old(self).ttl(),
            final(self).table() == fail_step(old(self).table(), key@),
    {
        let k = key.to_owned();
        match self.find(&k) {
            Some(i) => {
                proof { crate::gateway::middleware::lemma_key_pos(self.table(), i as int); }
                let stamp = self.entries[i].1.stamp;
                let data = match &self.entries[i].1.data {
                    Some(d) => Some(clone_value(d)),
                    None => None,
                };
                self.replace_slot(i, CacheSlot { data, stamp, pending: false });
                proof { crate::gateway::middleware::lemma_set_key(old(self).table(), key@, CacheSlot { data, stamp, pending: false }); }
            },
            None => {},
        }
    }
}

/// After a lookup of `key` at `t1` that found no fresh slot, the slot is
/// marked for fetching with stamp `t1`.
proof fn lemma_marked(es: CacheTable, key: Seq<char>, t1: u64, ttl: u64)
    requires
        distinct_keys(es),
        !has_key(es, key) || !fresh(es[key_pos(es, key)].1.stamp, t1, ttl),
    ensures
        distinct_keys(lookup_step(es, key, t1, ttl).0),
        has_key(lookup_step(es, key, t1, ttl).0, key),
        ({
            let e1 = lookup_step(es, key, t1, ttl).0;
            let s1 = e1[key_pos(e1, key)].1;
            s1.pending && s1.stamp == t1
        }),
{
    let e1 = lookup_step(es, key, t1, ttl).0;
    if has_key(es, key) {
        let p = key_pos(es, key);
        let slot = CacheSlot { data: es[p].1.data, stamp: t1, pending: true };
        crate::gateway::middleware::lemma_set_key(es, key, slot);
        assert(e1 == es.update(p, (key, slot)));
        crate::gateway::middleware::lemma_key_pos(e1, p);
    } else {
        let slot = CacheSlot { data: None, stamp: t1, pending: true };
        crate::gateway::middleware::lemma_set_key(es, key, slot);
        assert(e1 == es.push((key, slot)));
        crate::gateway::middleware::lemma_key_pos(e1, es.len() as int);
    }
}

/// While a fetch of `key` is in flight, lookups within the time-to-live of
/// its start serve nothing and start no other fetch.
pub proof fn lemma_fetch_not_repeated(es: CacheTable, key: Seq<char>, t1: u64, t2: u64, ttl: u64)
    requires
        distinct_keys(es),
        !has_key(es, key) || !fresh(es[key_pos(es, key)].1.stamp, t1, ttl),
        t1 <= t2,
        t2 - t1 < ttl,
    ensures
        lookup_step(es, key, t1, ttl).1 is None,
        lookup_step(lookup_step(es, key, t1, ttl).0, key, t2, ttl) == (lookup_step(es, key, t1, ttl).0, None::<serde_json::Value>),
{
    lemma_marked(es, key, t1, ttl);
}

/// A result stored for a fetch that began at `t1` is served by every lookup
/// within the time-to-live of `t1`.
pub proof fn lemma_fetched_result_served(
    es: CacheTable,
    key: Seq<char>,
    data: serde_json::Value,
    t1: u64,
    t2: u64,
    ttl: u64,
)
    requires
        distinct_keys(es),
        !has_key(es, key) || !fresh(es[key_pos(es, key)].1.stamp, t1, ttl),
        t1 <= t2,
        t2 - t1 < ttl,
    ensures
        lookup_step(put_step(lookup_step(es, key, t1, ttl).0, key, data), key, t2, ttl).1 == Some(data),
{
    lemma_marked(es, key, t1, ttl);
    let e1 = lookup_step(es, key, t1, ttl).0;
    let p = key_pos(e1, key);
    let slot = CacheSlot { data: Some(data), stamp: t1, pending: false };
    crate::gateway::middleware::lemma_set_key(e1, key, slot);
    let e2 = put_step(e1, key, data);
    assert(e2 == e1.update(p, (key, slot)));
    crate::gateway::middleware::lemma_key_pos(e2, p);
}

} // verus!
