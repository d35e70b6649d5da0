//! Gateway middleware: sliding-window rate limiting and idempotency keys.
//!
//! Time is counted in milliseconds on a monotonic clock. The `*_at`
//! functions take the current time as an argument and are specified
//! exactly; the others read the clock and then do the same.
use vstd::prelude::*;
use crate::clock::{duration_millis, millis_of_duration, millis_since, monotonic_now};

verus! {

/// How often, in milliseconds, the rate limiter sweeps stale keys.
pub const RATE_LIMITER_SWEEP_INTERVAL_MS: u64 = 300_000;

/// A request at `t` still counts at `now` in a window of `window` ms.
pub open spec fn live(t: u64, now: u64, window: u64) -> bool {
    t + window > now
}

/// The requests of `s` that still count at `now`, in order.
pub open spec fn keep_live(s: Seq<u64>, now: u64, window: u64) -> Seq<u64>
    decreases s.len(),
{
    if s.len() == 0 {
        Seq::empty()
    } else {
        let rest = keep_live(s.drop_last(), now, window);
        if live(s.last(), now, window) {
            rest.push(s.last())
        } else {
            rest
        }
    }
}

/// The keys of a table, each with its request times.
pub type RateTable = Seq<(Seq<char>, Seq<u64>)>;

/// The table without stale requests, and without the keys left with none.
pub open spec fn prune(es: RateTable, now: u64, window: u64) -> RateTable
    decreases es.len(),
{
    if es.len() == 0 {
        Seq::empty()
    } else {
        let rest = prune(es.drop_last(), now, window);
        let l = keep_live(es.last().1, now, window);
        if l.len() > 0 {
            rest.push((es.last().0, l))
        } else {
            rest
        }
    }
}

/// No key occurs twice in the table.
pub open spec fn distinct_keys<V>(es: Seq<(Seq<char>, V)>) -> bool {
    forall|i: int, j: int| 0 <= i < j < es.len() ==> #[trigger] es[i].0 != #[trigger] es[j].0
}

/// `key` occurs in the table.
pub open spec fn has_key<V>(es: Seq<(Seq<char>, V)>, key: Seq<char>) -> bool {
    exists|i: int| 0 <= i < es.len() && #[trigger] es[i].0 == key
}

/// The position of `key` in the table (meaningful where it occurs).
pub open spec fn key_pos<V>(es: Seq<(Seq<char>, V)>, key: Seq<char>) -> int {
    choose|i: int| 0 <= i < es.len() && #[trigger] es[i].0 == key
}

/// The request times of `key`, none where it does not occur.
pub open spec fn stamps_of(es: RateTable, key: Seq<char>) -> Seq<u64> {
    if has_key(es, key) {
        es[key_pos(es, key)].1
    } else {
        Seq::empty()
    }
}

/// The table with `key` given `v`: in place where it occurs, else at the end.
pub open spec fn set_key<V>(es: Seq<(Seq<char>, V)>, key: Seq<char>, v: V) -> Seq<(Seq<char>, V)> {
    if has_key(es, key) {
        es.update(key_pos(es, key), (key, v))
    } else {
        es.push((key, v))
    }
}

/// The position of the first key whose latest request is the oldest.
pub open spec fn oldest_rate_key(es: RateTable) -> int
    decreases es.len(),
{
    if es.len() <= 1 {
        0
    } else {
        let m = oldest_rate_key(es.drop_last());
        if es.last().1.last() < es[m].1.last() {
            es.len() - 1
        } else {
            m
        }
    }
}

/// The sweep is due: at least the sweep interval has passed since the last.
pub open spec fn sweep_due(last_sweep: u64, now: u64) -> bool {
    now >= last_sweep && now - last_sweep >= RATE_LIMITER_SWEEP_INTERVAL_MS
}

/// The table and last-sweep time once room has been made for `key`:
/// the periodic sweep, and, where `key` is new and the table full, a
/// prune and, if still full, the eviction of the key whose latest request
/// is the oldest.
pub open spec fn make_room(
    es: RateTable,
    last_sweep: u64,
    key: Seq<char>,
    now: u64,
    window: u64,
    max_keys: nat,
) -> (RateTable, u64) {
    let (es1, last1) = if sweep_due(last_sweep, now) {
        (prune(es, now, window), now)
    } else {
        (es, last_sweep)
    };
    if !has_key(es1, key) && es1.len() >= max_keys {
        let es2 = prune(es1, now, window);
        if es2.len() >= max_keys {
            (es2.remove(oldest_rate_key(es2)), now)
        } else {
            (es2, now)
        }
    } else {
        (es1, last1)
    }
}

/// One request of `key` at `now`: the new table, last-sweep time, and
/// whether the request is allowed. A limit of 0 allows everything and
/// records nothing; otherwise the request is allowed while the key has
/// fewer than `limit` requests in the window, and then recorded.
pub open spec fn allow_step(
    es: RateTable,
    last_sweep: u64,
    key: Seq<char>,
    now: u64,
    limit: u32,
    window: u64,
    max_keys: nat,
) -> (RateTable, u64, bool) {
    if limit == 0 {
        (es, last_sweep, true)
    } else {
        let (es3, last3) = make_room(es, last_sweep, key, now, window, max_keys);
        let st = keep_live(stamps_of(es3, key), now, window);
        if st.len() >= limit {
            (set_key(es3, key, st), last3, false)
        } else {
            (set_key(es3, key, st.push(now)), last3, true)
        }
    }
}

/// The table is well formed: no key twice, at most `max_keys` keys, and
/// no key with more than `limit` recorded requests.
pub open spec fn rate_table_wf(es: RateTable, limit: u32, max_keys: nat) -> bool {
    &&& distinct_keys(es)
    &&& es.len() <= max_keys
    &&& forall|i: int| 0 <= i < es.len() ==> (#[trigger] es[i]).1.len() <= limit
}

proof fn lemma_keep_live(s: Seq<u64>, now: u64, window: u64)
    ensures
        keep_live(s, now, window).len() <= s.len(),
        keep_live(keep_live(s, now, window), now, window) == keep_live(s, now, window),
        forall|i: int| 0 <= i < keep_live(s, now, window).len()
            ==> live(#[trigger] keep_live(s, now, window)[i], now, window),
    decreases s.len(),
{
    if s.len() > 0 {
        let d = s.drop_last();
        lemma_keep_live(d, now, window);
        let r = keep_live(d, now, window);
        if live(s.last(), now, window) {
            assert(r.push(s.last()).drop_last() =~= r);
        }
    }
}

/// In a table without repeated keys, a key is found where it stands.
pub(crate) proof fn lemma_key_pos<V>(es: Seq<(Seq<char>, V)>, i: int)
    requires
        distinct_keys(es),
        0 <= i < es.len(),
    ensures
        has_key(es, es[i].0),
        key_pos(es, es[i].0) == i,
{
    assert(has_key(es, es[i].0));
    let j = key_pos(es, es[i].0);
    if j != i {
        if j < i {
            assert(es[j].0 != es[i].0);
        } else {
            assert(es[i].0 != es[j].0);
        }
    }
}

proof fn lemma_prune(es: RateTable, now: u64, window: u64, key: Seq<char>)
    requires
        distinct_keys(es),
    ensures
        distinct_keys(prune(es, now, window)),
        prune(es, now, window).len() <= es.len(),
        forall|i: int| 0 <= i < prune(es, now, window).len() ==> {
            &&& (#[trigger] prune(es, now, window)[i]).1.len() > 0
            &&& has_key(es, prune(es, now, window)[i].0)
            &&& prune(es, now, window)[i].1.len() <= es[key_pos(es, prune(es, now, window)[i].0)].1.len()
        },
        stamps_of(prune(es, now, window), key) == keep_live(stamps_of(es, key), now, window),
    decreases es.len(),
{
    if es.len() == 0 {
        assert(!has_key(prune(es, now, window), key));
    } else {
        let d = es.drop_last();
        let n = es.len() - 1;
        let (k0, s0) = es.last();
        assert(distinct_keys(d)) by {
            assert forall|i: int, j: int| 0 <= i < j < d.len() implies #[trigger] d[i].0 != #[trigger] d[j].0 by {
                assert(es[i] == d[i] && es[j] == d[j]);
            }
        }
        lemma_prune(d, now, window, key);
        let pd = prune(d, now, window);
        let l = keep_live(s0, now, window);
        lemma_keep_live(s0, now, window);
        // keys of `d` are those of `es` before the last
        assert forall|k: Seq<char>| has_key(d, k) implies has_key(es, k) && key_pos(es, k) == key_pos(d, k) by {
            let j = key_pos(d, k);
            assert(es[j] == d[j]);
            lemma_key_pos(es, j);
        }
        assert(!has_key(d, k0)) by {
            if has_key(d, k0) {
                let j = key_pos(d, k0);
                assert(es[j] == d[j]);
                assert(es[j].0 != es[n].0);
            }
        }
        assert(!has_key(pd, k0)) by {
            if has_key(pd, k0) {
                let j = key_pos(pd, k0);
                assert(has_key(d, pd[j].0));
            }
        }
        lemma_key_pos(es, n);
        let p = prune(es, now, window);
        if l.len() > 0 {
            assert(p == pd.push((k0, l)));
            assert(distinct_keys(p)) by {
                assert forall|i: int, j: int| 0 <= i < j < p.len() implies #[trigger] p[i].0 != #[trigger] p[j].0 by {
                    if j == p.len() - 1 {
                        assert(p[i] == pd[i]);
                        if p[i].0 == k0 {
                            assert(has_key(pd, k0));
                        }
                    } else {
                        assert(p[i] == pd[i] && p[j] == pd[j]);
                    }
                }
            }
            assert forall|i: int| 0 <= i < p.len() implies {
                &&& (#[trigger] p[i]).1.len() > 0
                &&& has_key(es, p[i].0)
                &&& p[i].1.len() <= es[key_pos(es, p[i].0)].1.len()
            } by {
                if i < p.len() - 1 {
                    assert(p[i] == pd[i]);
                    assert(has_key(d, pd[i].0));
                    assert(es[key_pos(d, pd[i].0)] == d[key_pos(d, pd[i].0)]);
                }
            }
            lemma_key_pos(p, p.len() - 1);
            if key == k0 {
            } else {
                if has_key(pd, key) {
                    let j = key_pos(pd, key);
                    assert(p[j] == pd[j]);
                    lemma_key_pos(p, j);
                } else {
                    assert(!has_key(p, key)) by {
                        if has_key(p, key) {
                            let j = key_pos(p, key);
                            assert(j < pd.len());
                            assert(p[j] == pd[j]);
                        }
                    }
                }
                if has_key(d, key) {
                    let j = key_pos(d, key);
                    assert(es[j] == d[j]);
                } else {
                    assert(!has_key(es, key)) by {
                        if has_key(es, key) {
                            let j = key_pos(es, key);
                            assert(j < n);
                            assert(es[j] == d[j]);
                        }
                    }
                }
            }
        } else {
            assert(p == pd);
            assert forall|i: int| 0 <= i < p.len() implies {
                &&& (#[trigger] p[i]).1.len() > 0
                &&& has_key(es, p[i].0)
                &&& p[i].1.len() <= es[key_pos(es, p[i].0)].1.len()
            } by {
                assert(has_key(d, pd[i].0));
                assert(es[key_pos(d, pd[i].0)] == d[key_pos(d, pd[i].0)]);
            }
            if key == k0 {
                assert(!has_key(p, key));
            } else {
                if has_key(d, key) {
                    let j = key_pos(d, key);
                    assert(es[j] == d[j]);
                } else {
                    assert(!has_key(es, key)) by {
                        if has_key(es, key) {
                            let j = key_pos(es, key);
                            assert(j < n);
                            assert(es[j] == d[j]);
                        }
                    }
                }
            }
        }
    }
}

proof fn lemma_oldest_rate_key(es: RateTable)
    requires
        es.len() > 0,
    ensures
        0 <= oldest_rate_key(es) < es.len(),
    decreases es.len(),
{
    if es.len() > 1 {
        lemma_oldest_rate_key(es.drop_last());
    }
}

proof fn lemma_remove_keeps_distinct<V>(es: Seq<(Seq<char>, V)>, m: int, key: Seq<char>)
    requires
        distinct_keys(es),
        0 <= m < es.len(),
    ensures
        distinct_keys(es.remove(m)),
        has_key(es.remove(m), key) ==> has_key(es, key),
{
    let r = es.remove(m);
    assert forall|i: int, j: int| 0 <= i < j < r.len() implies #[trigger] r[i].0 != #[trigger] r[j].0 by {
        let a = if i < m { i } else { i + 1 };
        let b = if j < m { j } else { j + 1 };
        assert(r[i] == es[a] && r[j] == es[b]);
    }
    if has_key(r, key) {
        let j = key_pos(r, key);
        let b = if j < m { j } else { j + 1 };
        assert(r[j] == es[b]);
    }
}

/// Setting a key keeps a table without repeated keys so, adds an entry only
/// for a new key, and changes no other key's entry.
pub(crate) proof fn lemma_set_key<V>(es: Seq<(Seq<char>, V)>, key: Seq<char>, v: V)
    requires
        distinct_keys(es),
    ensures
        distinct_keys(set_key(es, key, v)),
        set_key(es, key, v).len() == es.len() + if has_key(es, key) { 0int } else { 1int },
        forall|i: int| 0 <= i < set_key(es, key, v).len() ==>
            (#[trigger] set_key(es, key, v)[i] == (key, v) || (i < es.len() && set_key(es, key, v)[i] == es[i])),
{
    let r = set_key(es, key, v);
    if has_key(es, key) {
        let p = key_pos(es, key);
        assert forall|i: int, j: int| 0 <= i < j < r.len() implies #[trigger] r[i].0 != #[trigger] r[j].0 by {
            if i == p {
                assert(es[j].0 != es[p].0);
            } else if j == p {
                assert(es[i].0 != es[p].0);
            }
        }
    } else {
        assert forall|i: int, j: int| 0 <= i < j < r.len() implies #[trigger] r[i].0 != #[trigger] r[j].0 by {
            if j == es.len() {
                assert(r[i] == es[i]);
                if es[i].0 == key {
                    assert(has_key(es, key));
                }
            }
        }
    }
}

/// Each request keeps the table well formed, and is allowed exactly when
/// the limit is 0 or the key has fewer than `limit` requests in the window:
/// neither the sweep nor an eviction changes the decision.
pub proof fn lemma_allow_step(
    es: RateTable,
    last_sweep: u64,
    key: Seq<char>,
    now: u64,
    limit: u32,
    window: u64,
    max_keys: nat,
)
    requires
        rate_table_wf(es, limit, max_keys),
        max_keys >= 1,
    ensures
        rate_table_wf(allow_step(es, last_sweep, key, now, limit, window, max_keys).0, limit, max_keys),
        allow_step(es, last_sweep, key, now, limit, window, max_keys).2
            == (limit == 0 || keep_live(stamps_of(es, key), now, window).len() < limit),
        limit > 0 ==> stamps_of(allow_step(es, last_sweep, key, now, limit, window, max_keys).0, key) == if allow_step(
            es,
            last_sweep,
            key,
            now,
            limit,
            window,
            max_keys,
        ).2 {
            keep_live(stamps_of(es, key), now, window).push(now)
        } else {
            keep_live(stamps_of(es, key), now, window)
        },
{
    if limit > 0 {
        let es1 = if sweep_due(last_sweep, now) { prune(es, now, window) } else { es };
        lemma_prune(es, now, window, key);
        lemma_keep_live(stamps_of(es, key), now, window);
        // es1 is well formed and gives `key` the same live requests
        assert(rate_table_wf(es1, limit, max_keys)) by {
            if sweep_due(last_sweep, now) {
                assert forall|i: int| 0 <= i < es1.len() implies (#[trigger] es1[i]).1.len() <= limit by {
                    let j = key_pos(es, es1[i].0);
                    assert(es[j].1.len() <= limit);
                }
            }
        }
        assert(keep_live(stamps_of(es1, key), now, window) == keep_live(stamps_of(es, key), now, window));
        let (es3, last3) = make_room(es, last_sweep, key, now, window, max_keys);
        if !has_key(es1, key) && es1.len() >= max_keys {
            let es2 = prune(es1, now, window);
            lemma_prune(es1, now, window, key);
            assert(!has_key(es2, key)) by {
                if has_key(es2, key) {
                    let j = key_pos(es2, key);
                    assert(has_key(es1, es2[j].0));
                }
            }
            assert(rate_table_wf(es2, limit, max_keys)) by {
                assert forall|i: int| 0 <= i < es2.len() implies (#[trigger] es2[i]).1.len() <= limit by {
                    let j = key_pos(es1, es2[i].0);
                    assert(es1[j].1.len() <= limit);
                }
            }
            if es2.len() >= max_keys {
                let m = oldest_rate_key(es2);
                lemma_oldest_rate_key(es2);
                lemma_remove_keeps_distinct(es2, m, key);
                assert(es3 == es2.remove(m));
                assert forall|i: int| 0 <= i < es3.len() implies (#[trigger] es3[i]).1.len() <= limit by {
                    let b = if i < m { i } else { i + 1 };
                    assert(es3[i] == es2[b]);
                }
            }
            assert(!has_key(es3, key));
            assert(es3.len() < max_keys);
        } else {
            assert(es3 == es1);
        }
        assert(rate_table_wf(es3, limit, max_keys) || es3.len() < max_keys);
        let st = keep_live(stamps_of(es3, key), now, window);
        lemma_keep_live(stamps_of(es3, key), now, window);
        assert(st == keep_live(stamps_of(es, key), now, window));
        if has_key(es3, key) {
            assert(es3[key_pos(es3, key)].1.len() <= limit);
        }
        let v = if st.len() >= limit { st } else { st.push(now) };
        lemma_set_key(es3, key, v);
        let r = set_key(es3, key, v);
        assert forall|i: int| 0 <= i < r.len() implies (#[trigger] r[i]).1.len() <= limit by {
            if r[i] == (key, v) {
            } else {
                assert(es3[i].1.len() <= limit);
            }
        }
        let p = if has_key(es3, key) { key_pos(es3, key) } else { es3.len() as int };
        assert(r[p] == (key, v));
        lemma_key_pos(r, p);
    }
}

/// Requests of `key` alone at each of `times` in turn, from table `es` swept
/// last at `last_sweep`: the table, last-sweep time, and how many requests
/// were allowed.
pub open spec fn run_requests(
    es: RateTable,
    last_sweep: u64,
    key: Seq<char>,
    times: Seq<u64>,
    limit: u32,
    window: u64,
    max_keys: nat,
) -> (RateTable, u64, nat)
    decreases times.len(),
{
    if times.len() == 0 {
        (es, last_sweep, 0)
    } else {
        let (es1, last1, n1) = run_requests(es, last_sweep, key, times.drop_last(), limit, window, max_keys);
        let (es2, last2, ok) = allow_step(es1, last1, key, times.last(), limit, window, max_keys);
        (es2, last2, if ok { n1 + 1 } else { n1 })
    }
}

/// How many of the times in `s` are at or after `t0`.
spec fn count_from(s: Seq<u64>, t0: u64) -> nat
    decreases s.len(),
{
    if s.len() == 0 {
        0
    } else {
        count_from(s.drop_last(), t0) + if s.last() >= t0 { 1nat } else { 0nat }
    }
}

proof fn lemma_count_from_bounded(s: Seq<u64>, t0: u64)
    ensures
        count_from(s, t0) <= s.len(),
    decreases s.len(),
{
    if s.len() > 0 {
        lemma_count_from_bounded(s.drop_last(), t0);
    }
}

/// Dropping the requests that no longer count at `now` drops none made at or
/// after `t0`, where `now` is within the window of `t0`.
proof fn lemma_count_from_live(s: Seq<u64>, now: u64, window: u64, t0: u64)
    requires
        now < t0 + window,
    ensures
        count_from(keep_live(s, now, window), t0) == count_from(s, t0),
    decreases s.len(),
{
    if s.len() > 0 {
        lemma_count_from_live(s.drop_last(), now, window, t0);
        let rest = keep_live(s.drop_last(), now, window);
        if live(s.last(), now, window) {
            assert(rest.push(s.last()).drop_last() =~= rest);
        }
    }
}

/// Each allowed request of the run is still recorded for `key`, counted
/// among its requests made at or after `t0`.
proof fn lemma_run_counted(
    es: RateTable,
    last_sweep: u64,
    key: Seq<char>,
    times: Seq<u64>,
    limit: u32,
    window: u64,
    max_keys: nat,
    t0: u64,
    t1: u64,
)
    requires
        rate_table_wf(es, limit, max_keys),
        max_keys >= 1,
        limit > 0,
        t1 < t0 + window,
        forall|i: int| 0 <= i < times.len() ==> t0 <= #[trigger] times[i] <= t1,
    ensures
        rate_table_wf(run_requests(es, last_sweep, key, times, limit, window, max_keys).0, limit, max_keys),
        run_requests(es, last_sweep, key, times, limit, window, max_keys).2 <= count_from(
            stamps_of(run_requests(es, last_sweep, key, times, limit, window, max_keys).0, key),
            t0,
        ),
    decreases times.len(),
{
    if times.len() > 0 {
        let d = times.drop_last();
        assert forall|i: int| 0 <= i < d.len() implies t0 <= #[trigger] d[i] <= t1 by {
            assert(d[i] == times[i]);
        }
        lemma_run_counted(es, last_sweep, key, d, limit, window, max_keys, t0, t1);
        let (es1, last1, n1) = run_requests(es, last_sweep, key, d, limit, window, max_keys);
        let now = times.last();
        assert(now == times[times.len() - 1]);
        lemma_allow_step(es1, last1, key, now, limit, window, max_keys);
        let st = keep_live(stamps_of(es1, key), now, window);
        lemma_count_from_live(stamps_of(es1, key), now, window, t0);
        assert(st.push(now).drop_last() =~= st);
    }
}

/// Within one window a key is allowed at most `limit` requests: requests of
/// one key alone, in time order and spanning less than a window, are
/// allowed at most `limit` times, whatever the table held before.
pub proof fn lemma_window_limit(
    es: RateTable,
    last_sweep: u64,
    key: Seq<char>,
    times: Seq<u64>,
    limit: u32,
    window: u64,
    max_keys: nat,
)
    requires
        rate_table_wf(es, limit, max_keys),
        max_keys >= 1,
        limit > 0,
        forall|i: int, j: int| 0 <= i <= j < times.len() ==> times[i] <= times[j],
        times.len() > 0 ==> times.last() < times[0] + window,
    ensures
        run_requests(es, last_sweep, key, times, limit, window, max_keys).2 <= limit,
{
    if times.len() > 0 {
        let t0 = times[0];
        let t1 = times.last();
        assert forall|i: int| 0 <= i < times.len() implies t0 <= #[trigger] times[i] <= t1 by {
            assert(times[0] <= times[i]);
            assert(times[i] <= times[times.len() - 1]);
        }
        lemma_run_counted(es, last_sweep, key, times, limit, window, max_keys, t0, t1);
        let r = run_requests(es, last_sweep, key, times, limit, window, max_keys).0;
        lemma_count_from_bounded(stamps_of(r, key), t0);
        if has_key(r, key) {
            assert(r[key_pos(r, key)].1.len() <= limit);
        }
    }
}

/// A key with no requests recorded is allowed its first `limit` requests,
/// whenever they come.
pub proof fn lemma_fresh_key_allowed(
    es: RateTable,
    last_sweep: u64,
    key: Seq<char>,
    times: Seq<u64>,
    limit: u32,
    window: u64,
    max_keys: nat,
)
    requires
        rate_table_wf(es, limit, max_keys),
        max_keys >= 1,
        stamps_of(es, key).len() == 0,
        times.len() <= limit,
    ensures
        run_requests(es, last_sweep, key, times, limit, window, max_keys).2 == times.len(),
        rate_table_wf(run_requests(es, last_sweep, key, times, limit, window, max_keys).0, limit, max_keys),
        limit > 0 ==> stamps_of(run_requests(es, last_sweep, key, times, limit, window, max_keys).0, key).len()
            <= times.len(),
    decreases times.len(),
{
    if times.len() > 0 {
        let d = times.drop_last();
        lemma_fresh_key_allowed(es, last_sweep, key, d, limit, window, max_keys);
        let (es1, last1, n1) = run_requests(es, last_sweep, key, d, limit, window, max_keys);
        lemma_allow_step(es1, last1, key, times.last(), limit, window, max_keys);
        if limit > 0 {
            lemma_keep_live(stamps_of(es1, key), times.last(), window);
        }
    }
}

/// One key of the rate table and the times of its recent requests.
#[derive(Debug)]
struct RateEntry {
    key: String,
    stamps: Vec<u64>,
}

/// The table held by a vector of entries.
closed spec fn table_of(v: Seq<RateEntry>) -> RateTable {
    Seq::new(v.len(), |i: int| (v[i].key@, v[i].stamps@))
}

fn live_exec(t: u64, now: u64, window: u64) -> (r: bool)
    ensures
        r == live(t, now, window),
{
    if t > now {
        true
    } else {
        now - t < window
    }
}

fn keep_live_exec(s: &Vec<u64>, now: u64, window: u64) -> (r: Vec<u64>)
    ensures
        r@ == keep_live(s@, now, window),
{
    let mut r: Vec<u64> = Vec::new();
    let mut i: usize = 0;
    while i < s.len()
        invariant
            i <= s.len(),
            r@ == keep_live(s@.take(i as int), now, window),
        decreases s.len() - i,
    {
        assert(s@.take(i as int + 1).drop_last() =~= s@.take(i as int));
        if live_exec(s[i], now, window) {
            r.push(s[i]);
        }
        i += 1;
    }
    assert(s@.take(s.len() as int) =~= s@);
    r
}

fn prune_exec(es: &Vec<RateEntry>, now: u64, window: u64) -> (r: Vec<RateEntry>)
    ensures
        table_of(r@) == prune(table_of(es@), now, window),
{
    let ghost t = table_of(es@);
    let mut r: Vec<RateEntry> = Vec::new();
    let mut i: usize = 0;
    while i < es.len()
        invariant
            i <= es.len(),
            t == table_of(es@),
            table_of(r@) == prune(t.take(i as int), now, window),
        decreases es.len() - i,
    {
        assert(t.take(i as int + 1).drop_last() =~= t.take(i as int));
        assert(t.take(i as int + 1).last() == t[i as int]);
        let l = keep_live_exec(&es[i].stamps, now, window);
        if l.len() > 0 {
            let ghost before = r@;
            r.push(RateEntry { key: es[i].key.clone(), stamps: l });
            assert(table_of(r@) =~= table_of(before).push((es[i as int].key@, l@)));
        }
        i += 1;
    }
    assert(t.take(es.len() as int) =~= t);
    r
}

fn find_key(es: &Vec<RateEntry>, key: &String) -> (r: Option<usize>)
    ensures
        match r {
            Some(i) => i < es.len() && table_of(es@)[i as int].0 == key@,
            None => !has_key(table_of(es@), key@),
        },
{
    let mut i: usize = 0;
    while i < es.len()
        invariant
            i <= es.len(),
            forall|j: int| 0 <= j < i ==> table_of(es@)[j].0 != key@,
        decreases es.len() - i,
    {
        if es[i].key == *key {
            return Some(i);
        }
        i += 1;
    }
    None
}

fn oldest_exec(es: &Vec<RateEntry>) -> (r: usize)
    requires
        es.len() > 0,
        forall|i: int| 0 <= i < es.len() ==> (#[trigger] table_of(es@)[i]).1.len() > 0,
    ensures
        r == oldest_rate_key(table_of(es@)),
        r < es.len(),
{
    let ghost t = table_of(es@);
    proof { lemma_oldest_rate_key(t); }
    let mut best: usize = 0;
    assert(t.take(1).len() == 1);
    let mut i: usize = 1;
    while i < es.len()
        invariant
            1 <= i <= es.len(),
            t == table_of(es@),
            forall|j: int| 0 <= j < es.len() ==> (#[trigger] t[j]).1.len() > 0,
            best < i,
            best == oldest_rate_key(t.take(i as int)),
        decreases es.len() - i,
    {
        let ghost ti = t.take(i as int + 1);
        assert(ti.drop_last() =~= t.take(i as int));
        assert(ti.last() == t[i as int]);
        assert(ti[best as int] == t[best as int]);
        assert(t[i as int].1.len() > 0 && t[best as int].1.len() > 0);
        let a = es[i].stamps[es[i].stamps.len() - 1];
        let b = es[best].stamps[es[best].stamps.len() - 1];
        if a < b {
            best = i;
        }
        i += 1;
    }
    assert(t.take(es.len() as int) =~= t);
    best
}

/// A sliding-window rate limiter: at most `limit_per_window` requests per
/// key in any window, over at most `max_keys` keys, the key whose latest
/// request is the oldest giving way to a new one when the table is full.
#[derive(Debug)]
pub struct SlidingWindowRateLimiter {
    limit_per_window: u32,
    window_ms: u64,
    max_keys: usize,
    entries: Vec<RateEntry>,
    last_sweep_ms: u64,
    origin: std::time::Instant,
}

impl SlidingWindowRateLimiter {
    /// The most requests a key may make in one window (0: no limit).
    pub closed spec fn limit(&self) -> u32 {
        self.limit_per_window
    }

    /// The window, in milliseconds.
    pub closed spec fn window(&self) -> u64 {
        self.window_ms
    }

    /// The most keys tracked at once.
    pub closed spec fn max_keys(&self) -> nat {
        self.max_keys as nat
    }

    /// The tracked keys with their request times, in order of arrival.
    pub closed spec fn table(&self) -> RateTable {
        table_of(self.entries@)
    }

    /// When the table was last swept (milliseconds since the limiter began).
    pub closed spec fn last_sweep(&self) -> u64 {
        self.last_sweep_ms
    }

    /// The limiter is well formed.
    pub open spec fn wf(&self) -> bool {
        rate_table_wf(self.table(), self.limit(), self.max_keys()) && self.max_keys() >= 1
    }

    /// A limiter of `limit_per_window` requests per `window_ms` milliseconds
    /// and key, over at most `max_keys` keys (at least one).
    pub fn with_window_ms(limit_per_window: u32, window_ms: u64, max_keys: usize) -> (l: Self)
        ensures
            l.wf(),
            l.limit() == limit_per_window,
            l.window() == window_ms,
            l.max_keys() == if max_keys == 0 { 1 } else { max_keys as nat },
            l.table() == RateTable::empty(),
            l.last_sweep() == 0,
    {
        let l = SlidingWindowRateLimiter {
            limit_per_window,
            window_ms,
            max_keys: if max_keys == 0 { 1 } else { max_keys },
            entries: Vec::new(),
            last_sweep_ms: 0,
            origin: monotonic_now(),
        };
        assert(l.table() =~= RateTable::empty());
        l
    }

    /// A limiter of `limit_per_window` requests per `window` and key, over at
    /// most `max_keys` keys (at least one).
    pub fn new(limit_per_window: u32, window: std::time::Duration, max_keys: usize) -> (l: Self)
        ensures
            l.wf(),
            l.limit() == limit_per_window,
            l.window() == millis_of_duration(window),
            l.max_keys() == if max_keys == 0 { 1 } else { max_keys as nat },
            l.table() == RateTable::empty(),
            l.last_sweep() == 0,
    {
        Self::with_window_ms(limit_per_window, duration_millis(&window), max_keys)
    }

    /// A request of `key` at `now_ms`: whether it is allowed, recording it
    /// where it is.
    pub fn allow_at(&mut self, key: &str, now_ms: u64) -> (r: bool)
        requires
            old(self).wf(),
        ensures
            final(self).wf(),
            final(self).limit() == old(self).limit(),
            final(self).window() == old(self).window(),
            final(self).max_keys() == old(self).max_keys(),
            (final(self).table(), final(self).last_sweep(), r) == allow_step(
                old(self).table(),
                old(self).last_sweep(),
                key@,
                now_ms,
                old(self).limit(),
                old(self).window(),
                old(self).max_keys(),
            ),
            r == (old(self).limit() == 0 || keep_live(stamps_of(old(self).table(), key@), now_ms, old(self).window()).len()
                < old(self).limit()),
    {
        proof {
            lemma_allow_step(self.table(), self.last_sweep(), key@, now_ms, self.limit(), self.window(), self.max_keys());
        }
        if self.limit_per_window == 0 {
            return true;
        }
        let ghost t0 = self.table();
        let ghost w = self.window_ms;
        let key_s = key.to_owned();
        if self.last_sweep_ms <= now_ms && now_ms - self.last_sweep_ms >= RATE_LIMITER_SWEEP_INTERVAL_MS {
            self.entries = prune_exec(&self.entries, now_ms, self.window_ms);
            self.last_sweep_ms = now_ms;
        }
        let ghost t1 = self.table();
        proof { lemma_prune(t0, now_ms, w, key@); }
        assert(distinct_keys(t1));
        let found = find_key(&self.entries, &key_s);
        if found.is_none() && self.entries.len() >= self.max_keys {
            self.entries = prune_exec(&self.entries, now_ms, self.window_ms);
            self.last_sweep_ms = now_ms;
            proof { lemma_prune(t1, now_ms, w, key@); }
            if self.entries.len() >= self.max_keys {
                let m = oldest_exec(&self.entries);
                let ghost t2 = self.table();
                self.entries.remove(m);
                assert(self.table() =~= t2.remove(m as int));
            }
        }
        let ghost t3 = self.table();
        assert((t3, self.last_sweep_ms) == make_room(t0, old(self).last_sweep(), key@, now_ms, w, self.max_keys as nat));
        assert(distinct_keys(t3)) by {
            let es1 = if sweep_due(old(self).last_sweep(), now_ms) { prune(t0, now_ms, w) } else { t0 };
            if !has_key(es1, key@) && es1.len() >= self.max_keys {
                let es2 = prune(es1, now_ms, w);
                if es2.len() >= self.max_keys {
                    lemma_oldest_rate_key(es2);
                    lemma_remove_keeps_distinct(es2, oldest_rate_key(es2), key@);
                }
            }
        }
        let found = find_key(&self.entries, &key_s);
        let mut st = match found {
            Some(i) => {
                proof { lemma_key_pos(t3, i as int); }
                keep_live_exec(&self.entries[i].stamps, now_ms, self.window_ms)
            },
            None => Vec::new(),
        };
        assert(st@ == keep_live(stamps_of(t3, key@), now_ms, w));
        let allowed = st.len() < self.limit_per_window as usize;
        if allowed {
            st.push(now_ms);
        }
        let ghost v = st@;
        match found {
            Some(i) => {
                self.entries.set(i, RateEntry { key: key_s, stamps: st });
                assert(self.table() =~= t3.update(i as int, (key@, v)));
            },
            None => {
                self.entries.push(RateEntry { key: key_s, stamps: st });
                assert(self.table() =~= t3.push((key@, v)));
            },
        }
        allowed
    }

    /// A request of `key` now: whether it is allowed, recording it where it is.
    pub fn allow(&mut self, key: &str) -> (r: bool)
        requires
            old(self).wf(),
        ensures
            final(self).wf(),
            final(self).limit() == old(self).limit(),
            final(self).window() == old(self).window(),
            final(self).max_keys() == old(self).max_keys(),
            exists|now: u64|
                (final(self).table(), final(self).last_sweep(), r) == #[trigger] allow_step(
                    old(self).table(),
                    old(self).last_sweep(),
                    key@,
                    now,
                    old(self).limit(),
                    old(self).window(),
                    old(self).max_keys(),
                ),
    {
        let now = millis_since(&self.origin);
        self.allow_at(key, now)
    }
}

/// The gateway's window for rate limits, in milliseconds (one minute).
pub const RATE_LIMIT_WINDOW_MS: u64 = 60_000;

/// Rate limits for the gateway: one for pairing requests and one for
/// webhooks, each per minute and client key.
#[derive(Debug)]
pub struct GatewayRateLimiter {
    pair: SlidingWindowRateLimiter,
    webhook: SlidingWindowRateLimiter,
}

impl GatewayRateLimiter {
    /// The limiter for pairing requests.
    pub closed spec fn pair_limiter(&self) -> SlidingWindowRateLimiter {
        self.pair
    }

    /// The limiter for webhooks.
    pub closed spec fn webhook_limiter(&self) -> SlidingWindowRateLimiter {
        self.webhook
    }

    /// Both limiters are well formed.
    pub open spec fn wf(&self) -> bool {
        self.pair_limiter().wf() && self.webhook_limiter().wf()
    }

    /// Limits of `pair_per_minute` pairing requests and `webhook_per_minute`
    /// webhooks per minute and key, each over at most `max_keys` keys.
    pub fn new(pair_per_minute: u32, webhook_per_minute: u32, max_keys: usize) -> (g: Self)
        ensures
            g.wf(),
            g.pair_limiter().limit() == pair_per_minute,
            g.webhook_limiter().limit() == webhook_per_minute,
            g.pair_limiter().window() == RATE_LIMIT_WINDOW_MS,
            g.webhook_limiter().window() == RATE_LIMIT_WINDOW_MS,
            g.pair_limiter().max_keys() == if max_keys == 0 { 1 } else { max_keys as nat },
            g.webhook_limiter().max_keys() == if max_keys == 0 { 1 } else { max_keys as nat },
            g.pair_limiter().table() == RateTable::empty(),
            g.webhook_limiter().table() == RateTable::empty(),
    {
        GatewayRateLimiter {
            pair: SlidingWindowRateLimiter::with_window_ms(pair_per_minute, RATE_LIMIT_WINDOW_MS, max_keys),
            webhook: SlidingWindowRateLimiter::with_window_ms(webhook_per_minute, RATE_LIMIT_WINDOW_MS, max_keys),
        }
    }

    /// A pairing request from `key`: whether it is allowed.
    pub fn allow_pair(&mut self, key: &str) -> (r: bool)
        requires
            old(self).wf(),
        ensures
            final(self).wf(),
            final(self).webhook_limiter() == old(self).webhook_limiter(),
            final(self).pair_limiter().limit() == old(self).pair_limiter().limit(),
            final(self).pair_limiter().window() == old(self).pair_limiter().window(),
            final(self).pair_limiter().max_keys() == old(self).pair_limiter().max_keys(),
            exists|now: u64|
                (final(self).pair_limiter().table(), final(self).pair_limiter().last_sweep(), r)
                    == #[trigger] allow_step(
                    old(self).pair_limiter().table(),
                    old(self).pair_limiter().last_sweep(),
                    key@,
                    now,
                    old(self).pair_limiter().limit(),
                    old(self).pair_limiter().window(),
                    old(self).pair_limiter().max_keys(),
                ),
    {
        self.pair.allow(key)
    }

    /// A webhook from `key`: whether it is allowed.
    pub fn allow_webhook(&mut self, key: &str) -> (r: bool)
        requires
            old(self).wf(),
        ensures
            final(self).wf(),
            final(self).pair_limiter() == old(self).pair_limiter(),
            final(self).webhook_limiter().limit() == old(self).webhook_limiter().limit(),
            final(self).webhook_limiter().window() == old(self).webhook_limiter().window(),
            final(self).webhook_limiter().max_keys() == old(self).webhook_limiter().max_keys(),
            exists|now: u64|
                (final(self).webhook_limiter().table(), final(self).webhook_limiter().last_sweep(), r)
                    == #[trigger] allow_step(
                    old(self).webhook_limiter().table(),
                    old(self).webhook_limiter().last_sweep(),
                    key@,
                    now,
                    old(self).webhook_limiter().limit(),
                    old(self).webhook_limiter().window(),
                    old(self).webhook_limiter().max_keys(),
                ),
    {
        self.webhook.allow(key)
    }
}

/// The recorded idempotency keys, each with when it was seen.
pub type SeenTable = Seq<(Seq<char>, u64)>;

/// A key seen at `seen` is still remembered at `now` with a time-to-live of
/// `ttl` ms (a time before `seen` counts as no time passed).
pub open spec fn fresh(seen: u64, now: u64, ttl: u64) -> bool {
    (if seen >= now { 0 } else { now - seen }) < ttl
}

/// The keys still remembered at `now`, in order.
pub open spec fn keep_fresh(es: SeenTable, now: u64, ttl: u64) -> SeenTable
    decreases es.len(),
{
    if es.len() == 0 {
        Seq::empty()
    } else {
        let rest = keep_fresh(es.drop_last(), now, ttl);
        if fresh(es.last().1, now, ttl) {
            rest.push(es.last())
        } else {
            rest
        }
    }
}

/// The position of the first key seen earliest.
pub open spec fn oldest_seen(es: SeenTable) -> int
    decreases es.len(),
{
    if es.len() <= 1 {
        0
    } else {
        let m = oldest_seen(es.drop_last());
        if es.last().1 < es[m].1 {
            es.len() - 1
        } else {
            m
        }
    }
}

/// Recording `key` at `now`: the new table and whether the key was new.
/// Keys past their time-to-live are forgotten first; a key still
/// remembered is refused; a new key is recorded, the key seen earliest
/// giving way where the table is full.
pub open spec fn record_step(es: SeenTable, key: Seq<char>, now: u64, ttl: u64, max_keys: nat) -> (SeenTable, bool) {
    let es1 = keep_fresh(es, now, ttl);
    if has_key(es1, key) {
        (es1, false)
    } else {
        let es2 = if es1.len() >= max_keys { es1.remove(oldest_seen(es1)) } else { es1 };
        (es2.push((key, now)), true)
    }
}

/// The table is well formed: no key twice and at most `max_keys` keys.
pub open spec fn seen_table_wf(es: SeenTable, max_keys: nat) -> bool {
    distinct_keys(es) && es.len() <= max_keys
}

proof fn lemma_keep_fresh(es: SeenTable, now: u64, ttl: u64)
    ensures
        keep_fresh(es, now, ttl).len() <= es.len(),
        forall|i: int| 0 <= i < keep_fresh(es, now, ttl).len() ==> exists|j: int| 0 <= j < es.len()
            && #[trigger] keep_fresh(es, now, ttl)[i] == es[j],
        forall|j: int| 0 <= j < es.len() && fresh(es[j].1, now, ttl) ==> exists|i: int|
            0 <= i < keep_fresh(es, now, ttl).len() && keep_fresh(es, now, ttl)[i] == #[trigger] es[j],
        distinct_keys(es) ==> distinct_keys(keep_fresh(es, now, ttl)),
    decreases es.len(),
{
    if es.len() > 0 {
        let d = es.drop_last();
        lemma_keep_fresh(d, now, ttl);
        let kd = keep_fresh(d, now, ttl);
        let k = keep_fresh(es, now, ttl);
        let n = es.len() - 1;
        assert forall|i: int| 0 <= i < k.len() implies exists|j: int| 0 <= j < es.len()
            && #[trigger] k[i] == es[j] by {
            if i < kd.len() {
                assert(k[i] == kd[i]);
                let j = choose|j: int| 0 <= j < d.len() && kd[i] == d[j];
                assert(es[j] == d[j]);
            } else {
                assert(k[i] == es[n]);
            }
        }
        assert forall|j: int| 0 <= j < es.len() && fresh(es[j].1, now, ttl) implies exists|i: int|
            0 <= i < k.len() && k[i] == #[trigger] es[j] by {
            if j < n {
                assert(es[j] == d[j]);
                let i = choose|i: int| 0 <= i < kd.len() && kd[i] == d[j];
                assert(k[i] == kd[i]);
            } else {
                assert(k[k.len() - 1] == es[n]);
            }
        }
        if distinct_keys(es) {
            assert(distinct_keys(d)) by {
                assert forall|i: int, j: int| 0 <= i < j < d.len() implies #[trigger] d[i].0 != #[trigger] d[j].0 by {
                    assert(es[i] == d[i] && es[j] == d[j]);
                }
            }
            assert forall|i: int, j: int| 0 <= i < j < k.len() implies #[trigger] k[i].0 != #[trigger] k[j].0 by {
                if j < kd.len() {
                    assert(k[i] == kd[i] && k[j] == kd[j]);
                } else {
                    assert(k[i] == kd[i]);
                    let a = choose|a: int| 0 <= a < d.len() && kd[i] == d[a];
                    assert(es[a] == d[a]);
                    assert(es[a].0 != es[n].0);
                }
            }
        }
    }
}

proof fn lemma_oldest_seen(es: SeenTable)
    requires
        es.len() > 0,
    ensures
        0 <= oldest_seen(es) < es.len(),
    decreases es.len(),
{
    if es.len() > 1 {
        lemma_oldest_seen(es.drop_last());
    }
}

/// Each recording keeps the table well formed, and reports the key new
/// exactly when it is not remembered at that time.
pub proof fn lemma_record_step(es: SeenTable, key: Seq<char>, now: u64, ttl: u64, max_keys: nat)
    requires
        seen_table_wf(es, max_keys),
        max_keys >= 1,
    ensures
        seen_table_wf(record_step(es, key, now, ttl, max_keys).0, max_keys),
        record_step(es, key, now, ttl, max_keys).1 == !has_key(keep_fresh(es, now, ttl), key),
        has_key(record_step(es, key, now, ttl, max_keys).0, key),
        record_step(es, key, now, ttl, max_keys).1 ==> record_step(es, key, now, ttl, max_keys).0.len() > 0
            && record_step(es, key, now, ttl, max_keys).0.last() == (key, now),
{
    lemma_keep_fresh(es, now, ttl);
    let es1 = keep_fresh(es, now, ttl);
    if !has_key(es1, key) {
        let es2 = if es1.len() >= max_keys { es1.remove(oldest_seen(es1)) } else { es1 };
        if es1.len() >= max_keys {
            lemma_oldest_seen(es1);
            lemma_remove_keeps_distinct(es1, oldest_seen(es1), key);
        }
        assert(!has_key(es2, key));
        lemma_set_key(es2, key, now);
        assert(set_key(es2, key, now) == es2.push((key, now)));
        let r = es2.push((key, now));
        assert(r[r.len() - 1].0 == key);
    } else {
        let i = key_pos(es1, key);
        assert(es1[i].0 == key);
    }
}

proof fn lemma_fresh_entry_kept(es: SeenTable, n: int, now: u64, ttl: u64)
    requires
        0 <= n < es.len(),
        fresh(es[n].1, now, ttl),
    ensures
        has_key(keep_fresh(es, now, ttl), es[n].0),
{
    lemma_keep_fresh(es, now, ttl);
    let k = keep_fresh(es, now, ttl);
    let i = choose|i: int| 0 <= i < k.len() && k[i] == es[n];
    assert(k[i].0 == es[n].0);
}

/// A key that was just recorded as new is refused for its whole
/// time-to-live.
pub proof fn lemma_recorded_key_refused(
    es: SeenTable,
    key: Seq<char>,
    now1: u64,
    now2: u64,
    ttl: u64,
    max_keys: nat,
)
    requires
        seen_table_wf(es, max_keys),
        max_keys >= 1,
        record_step(es, key, now1, ttl, max_keys).1,
        now1 <= now2,
        now2 - now1 < ttl,
    ensures
        !record_step(record_step(es, key, now1, ttl, max_keys).0, key, now2, ttl, max_keys).1,
{
    lemma_record_step(es, key, now1, ttl, max_keys);
    let es1 = record_step(es, key, now1, ttl, max_keys).0;
    lemma_fresh_entry_kept(es1, es1.len() - 1, now2, ttl);
    lemma_record_step(es1, key, now2, ttl, max_keys);
}

/// A key none of whose entries is fresh at `now` is not kept.
proof fn lemma_stale_key_dropped(es: SeenTable, key: Seq<char>, now: u64, ttl: u64)
    requires
        forall|j: int| 0 <= j < es.len() && (#[trigger] es[j]).0 == key ==> !fresh(es[j].1, now, ttl),
    ensures
        !has_key(keep_fresh(es, now, ttl), key),
    decreases es.len(),
{
    if es.len() > 0 {
        let d = es.drop_last();
        assert forall|j: int| 0 <= j < d.len() && (#[trigger] d[j]).0 == key implies !fresh(d[j].1, now, ttl) by {
            assert(d[j] == es[j]);
        }
        lemma_stale_key_dropped(d, key, now, ttl);
        let kd = keep_fresh(d, now, ttl);
        let k = keep_fresh(es, now, ttl);
        if has_key(k, key) {
            let i = choose|i: int| 0 <= i < k.len() && #[trigger] k[i].0 == key;
            if i < kd.len() {
                assert(k[i] == kd[i]);
                assert(has_key(kd, key));
            } else {
                assert(k[i] == es[es.len() - 1]);
            }
        }
    }
}

/// A key recorded as new is taken as new again once its time-to-live has
/// passed.
pub proof fn lemma_key_new_after_ttl(
    es: SeenTable,
    key: Seq<char>,
    now1: u64,
    now2: u64,
    ttl: u64,
    max_keys: nat,
)
    requires
        seen_table_wf(es, max_keys),
        max_keys >= 1,
        record_step(es, key, now1, ttl, max_keys).1,
        now1 <= now2,
        now2 - now1 >= ttl,
    ensures
        record_step(record_step(es, key, now1, ttl, max_keys).0, key, now2, ttl, max_keys).1,
{
    lemma_record_step(es, key, now1, ttl, max_keys);
    let es1 = record_step(es, key, now1, ttl, max_keys).0;
    let n = es1.len() - 1;
    assert forall|j: int| 0 <= j < es1.len() && (#[trigger] es1[j]).0 == key implies !fresh(es1[j].1, now2, ttl) by {
        if j != n {
            if j < n {
                assert(es1[j].0 != es1[n].0);
            } else {
                assert(es1[n].0 != es1[j].0);
            }
        }
    }
    lemma_stale_key_dropped(es1, key, now2, ttl);
}

/// One idempotency key and when it was seen.
#[derive(Debug)]
struct SeenEntry {
    key: String,
    seen: u64,
}

/// The table held by a vector of entries.
closed spec fn seen_of(v: Seq<SeenEntry>) -> SeenTable {
    Seq::new(v.len(), |i: int| (v[i].key@, v[i].seen))
}

fn fresh_exec(seen: u64, now: u64, ttl: u64) -> (r: bool)
    ensures
        r == fresh(seen, now, ttl),
{
    if seen >= now {
        0 < ttl
    } else {
        now - seen < ttl
    }
}

fn keep_fresh_exec(es: &Vec<SeenEntry>, now: u64, ttl: u64) -> (r: Vec<SeenEntry>)
    ensures
        seen_of(r@) == keep_fresh(seen_of(es@), now, ttl),
{
    let ghost t = seen_of(es@);
    let mut r: Vec<SeenEntry> = Vec::new();
    let mut i: usize = 0;
    while i < es.len()
        invariant
            i <= es.len(),
            t == seen_of(es@),
            seen_of(r@) == keep_fresh(t.take(i as int), now, ttl),
        decreases es.len() - i,
    {
        assert(t.take(i as int + 1).drop_last() =~= t.take(i as int));
        assert(t.take(i as int + 1).last() == t[i as int]);
        if fresh_exec(es[i].seen, now, ttl) {
            let ghost before = r@;
            r.push(SeenEntry { key: es[i].key.clone(), seen: es[i].seen });
            assert(seen_of(r@) =~= seen_of(before).push(t[i as int]));
        }
        i += 1;
    }
    assert(t.take(es.len() as int) =~= t);
    r
}

fn find_seen(es: &Vec<SeenEntry>, key: &String) -> (r: bool)
    ensures
        r == has_key(seen_of(es@), key@),
{
    let mut i: usize = 0;
    while i < es.len()
        invariant
            i <= es.len(),
            forall|j: int| 0 <= j < i ==> seen_of(es@)[j].0 != key@,
        decreases es.len() - i,
    {
        if es[i].key == *key {
            assert(seen_of(es@)[i as int].0 == key@);
            return true;
        }
        i += 1;
    }
    false
}

fn oldest_seen_exec(es: &Vec<SeenEntry>) -> (r: usize)
    requires
        es.len() > 0,
    ensures
        r == oldest_seen(seen_of(es@)),
        r < es.len(),
{
    let ghost t = seen_of(es@);
    proof { lemma_oldest_seen(t); }
    let mut best: usize = 0;
    let mut i: usize = 1;
    while i < es.len()
        invariant
            1 <= i <= es.len(),
            t == seen_of(es@),
            best < i,
            best == oldest_seen(t.take(i as int)),
        decreases es.len() - i,
    {
        let ghost ti = t.take(i as int + 1);
        assert(ti.drop_last() =~= t.take(i as int));
        assert(ti.last() == t[i as int]);
        assert(ti[best as int] == t[best as int]);
        if es[i].seen < es[best].seen {
            best = i;
        }
        i += 1;
    }
    assert(t.take(es.len() as int) =~= t);
    best
}

/// Idempotency keys remembered for a time-to-live, over at most `max_keys`
/// keys, so that a repeated request can be recognised.
#[derive(Debug)]
pub struct IdempotencyStore {
    ttl_ms: u64,
    max_keys: usize,
    entries: Vec<SeenEntry>,
    origin: std::time::Instant,
}

impl IdempotencyStore {
    /// How long a key is remembered, in milliseconds.
    pub closed spec fn ttl(&self) -> u64 {
        self.ttl_ms
    }

    /// The most keys remembered at once.
    pub closed spec fn max_keys(&self) -> nat {
        self.max_keys as nat
    }

    /// The remembered keys with when they were seen, in order of arrival.
    pub closed spec fn table(&self) -> SeenTable {
        seen_of(self.entries@)
    }

    /// The store is well formed.
    pub open spec fn wf(&self) -> bool {
        seen_table_wf(self.table(), self.max_keys()) && self.max_keys() >= 1
    }

    /// A store remembering keys for `ttl`, at most `max_keys` (at least one)
    /// at once.
    pub fn new(ttl: std::time::Duration, max_keys: usize) -> (s: Self)
        ensures
            s.wf(),
            s.ttl() == millis_of_duration(ttl),
            s.max_keys() == if max_keys == 0 { 1 } else { max_keys as nat },
            s.table() == SeenTable::empty(),
    {
        let s = IdempotencyStore {
            ttl_ms: duration_millis(&ttl),
            max_keys: if max_keys == 0 { 1 } else { max_keys },
            entries: Vec::new(),
            origin: monotonic_now(),
        };
        assert(s.table() =~= SeenTable::empty());
        s
    }

    /// Records `key` at `now_ms`; true when it is new (not remembered then).
    pub fn record_if_new_at(&mut self, key: &str, now_ms: u64) -> (r: bool)
        requires
            old(self).wf(),
        ensures
            final(self).wf(),
            final(self).ttl() == old(self).ttl(),
            final(self).max_keys() == old(self).max_keys(),
            (final(self).table(), r) == record_step(old(self).table(), key@, now_ms, old(self).ttl(), old(self).max_keys()),
            r == !has_key(keep_fresh(old(self).table(), now_ms, old(self).ttl()), key@),
    {
        proof { lemma_record_step(self.table(), key@, now_ms, self.ttl(), self.max_keys()); }
        let ghost t0 = self.table();
        self.entries = keep_fresh_exec(&self.entries, now_ms, self.ttl_ms);
        let key_s = key.to_owned();
        if find_seen(&self.entries, &key_s) {
            return false;
        }
        if self.entries.len() >= self.max_keys {
            let m = oldest_seen_exec(&self.entries);
            let ghost t1 = self.table();
            self.entries.remove(m);
            assert(self.table() =~= t1.remove(m as int));
        }
        let ghost t2 = self.table();
        self.entries.push(SeenEntry { key: key_s, seen: now_ms });
        assert(self.table() =~= t2.push((key@, now_ms)));
        true
    }

    /// Records `key` now; true when it is new (not remembered now).
    pub fn record_if_new(&mut self, key: &str) -> (r: bool)
        requires
            old(self).wf(),
        ensures
            final(self).wf(),
            final(self).ttl() == old(self).ttl(),
            final(self).max_keys() == old(self).max_keys(),
            exists|now: u64|
                (final(self).table(), r) == #[trigger] record_step(old(self).table(), key@, now, old(self).ttl(), old(self).max_keys()),
    {
        let now = millis_since(&self.origin);
        self.record_if_new_at(key, now)
    }
}

} // verus!
