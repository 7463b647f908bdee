//! Sliding-window rate limiting per API key. Time is given to each call as a
//! reading of a monotonic clock in nanoseconds.

use vstd::prelude::*;
use vstd::string::*;

verus! {

/// The request times recorded for one key.
pub struct KeyWindow {
    key: String,
    stamps: Vec<u64>,
}

/// Rate limiter using a sliding window per API key.
pub struct RateLimiter {
    /// Max requests per window
    max_requests: u32,
    /// Window duration, in nanoseconds
    window_nanos: u64,
    /// Per-key request timestamps; no key occurs twice
    entries: Vec<KeyWindow>,
}

/// A request made at `t` still counts at time `now`: it lies inside the
/// window that ends at `now`.
pub open spec fn is_live(t: u64, now: u64, window: u64) -> bool {
    t > now - window
}

/// The requests of `s` that still count at `now`, in order.
pub open spec fn live_stamps(s: Seq<u64>, now: u64, window: u64) -> Seq<u64>
    decreases s.len(),
{
    if s.len() == 0 {
        s
    } else {
        let r = live_stamps(s.drop_last(), now, window);
        if is_live(s.last(), now, window) {
            r.push(s.last())
        } else {
            r
        }
    }
}

proof fn lemma_live_len(s: Seq<u64>, now: u64, window: u64)
    ensures
        live_stamps(s, now, window).len() <= s.len(),
    decreases s.len(),
{
    if s.len() > 0 {
        lemma_live_len(s.drop_last(), now, window);
    }
}

/// How long a limited key must wait: the window minus the time since its
/// oldest counted request (none means no time has passed), never negative.
pub open spec fn retry_after(live: Seq<u64>, now: u64, window: u64) -> u64 {
    let oldest = if live.len() > 0 { live[0] } else { now };
    let elapsed: int = if now >= oldest { now - oldest } else { 0 };
    if window > elapsed { (window - elapsed) as u64 } else { 0 }
}

/// A key with its recorded request times.
pub type KeyHistory = (Seq<char>, Seq<u64>);

/// The map from keys to request times that a list of windows records.
pub open spec fn history_of(ev: Seq<KeyHistory>) -> Map<Seq<char>, Seq<u64>>
    decreases ev.len(),
{
    if ev.len() == 0 {
        Map::empty()
    } else {
        history_of(ev.drop_last()).insert(ev.last().0, ev.last().1)
    }
}

/// No key occurs twice.
pub open spec fn distinct_keys(ev: Seq<KeyHistory>) -> bool {
    forall|i: int, j: int| 0 <= i < j < ev.len() ==> ev[i].0 != ev[j].0
}

/// Every window with its expired requests dropped, and windows left empty
/// removed.
pub open spec fn cleaned(ev: Seq<KeyHistory>, now: u64, window: u64) -> Seq<KeyHistory>
    decreases ev.len(),
{
    if ev.len() == 0 {
        ev
    } else {
        let r = cleaned(ev.drop_last(), now, window);
        let l = live_stamps(ev.last().1, now, window);
        if l.len() > 0 {
            r.push((ev.last().0, l))
        } else {
            r
        }
    }
}

proof fn lemma_history_dom(ev: Seq<KeyHistory>, k: Seq<char>)
    ensures
        history_of(ev).dom().contains(k) <==> exists|i: int| 0 <= i < ev.len() && ev[i].0 == k,
    decreases ev.len(),
{
    if ev.len() > 0 {
        let d = ev.drop_last();
        lemma_history_dom(d, k);
        if exists|i: int| 0 <= i < d.len() && d[i].0 == k {
            let i = choose|i: int| 0 <= i < d.len() && d[i].0 == k;
            assert(ev[i].0 == k);
        }
        if exists|i: int| 0 <= i < ev.len() && ev[i].0 == k {
            let i = choose|i: int| 0 <= i < ev.len() && ev[i].0 == k;
            if i < d.len() {
                assert(d[i].0 == k);
            }
        }
    }
}

proof fn lemma_history_at(ev: Seq<KeyHistory>, i: int)
    requires
        distinct_keys(ev),
        0 <= i < ev.len(),
    ensures
        history_of(ev).dom().contains(ev[i].0),
        history_of(ev)[ev[i].0] == ev[i].1,
    decreases ev.len(),
{
    if i < ev.len() - 1 {
        let d = ev.drop_last();
        assert(d[i] == ev[i]);
        lemma_history_at(d, i);
        assert(ev.last().0 != ev[i].0);
    }
}

proof fn lemma_history_update(ev: Seq<KeyHistory>, i: int, s: Seq<u64>)
    requires
        distinct_keys(ev),
        0 <= i < ev.len(),
    ensures
        history_of(ev.update(i, (ev[i].0, s))) == history_of(ev).insert(ev[i].0, s),
    decreases ev.len(),
{
    let u = ev.update(i, (ev[i].0, s));
    let d = ev.drop_last();
    if i == ev.len() - 1 {
        assert(u.drop_last() =~= d);
        assert(history_of(u) =~= history_of(ev).insert(ev[i].0, s));
    } else {
        assert(u.drop_last() =~= d.update(i, (d[i].0, s)));
        lemma_history_update(d, i, s);
        assert(ev.last().0 != ev[i].0);
        assert(history_of(u) =~= history_of(ev).insert(ev[i].0, s));
    }
}

proof fn lemma_cleaned_keys(ev: Seq<KeyHistory>, now: u64, window: u64)
    ensures
        forall|j: int|
            0 <= j < cleaned(ev, now, window).len() ==> exists|i: int|
                0 <= i < ev.len() && ev[i].0 == #[trigger] cleaned(ev, now, window)[j].0,
    decreases ev.len(),
{
    if ev.len() > 0 {
        let d = ev.drop_last();
        lemma_cleaned_keys(d, now, window);
        let r = cleaned(d, now, window);
        let c = cleaned(ev, now, window);
        assert forall|j: int| 0 <= j < c.len() implies exists|i: int|
            0 <= i < ev.len() && ev[i].0 == #[trigger] c[j].0 by {
            if j < r.len() {
                assert(c[j] == r[j]);
                let i = choose|i: int| 0 <= i < d.len() && d[i].0 == r[j].0;
                assert(ev[i] == d[i]);
            } else {
                assert(ev[ev.len() - 1].0 == c[j].0);
            }
        }
    }
}

proof fn lemma_cleaned_distinct(ev: Seq<KeyHistory>, now: u64, window: u64)
    requires
        distinct_keys(ev),
    ensures
        distinct_keys(cleaned(ev, now, window)),
    decreases ev.len(),
{
    if ev.len() > 0 {
        let d = ev.drop_last();
        lemma_cleaned_distinct(d, now, window);
        lemma_cleaned_keys(d, now, window);
        let r = cleaned(d, now, window);
        let c = cleaned(ev, now, window);
        assert forall|a: int, b: int| 0 <= a < b < c.len() implies c[a].0 != c[b].0 by {
            if b == r.len() {
                assert(c[a] == r[a]);
                let i = choose|i: int| 0 <= i < d.len() && d[i].0 == r[a].0;
                assert(ev[i] == d[i]);
            } else {
                assert(c[a] == r[a] && c[b] == r[b]);
            }
        }
    }
}

proof fn lemma_cleaned_history(ev: Seq<KeyHistory>, now: u64, window: u64)
    requires
        distinct_keys(ev),
    ensures
        history_of(cleaned(ev, now, window)) == Map::new(
            |k: Seq<char>|
                history_of(ev).dom().contains(k) && live_stamps(history_of(ev)[k], now, window).len()
                    > 0,
            |k: Seq<char>| live_stamps(history_of(ev)[k], now, window),
        ),
    decreases ev.len(),
{
    if ev.len() > 0 {
        let d = ev.drop_last();
        lemma_cleaned_history(d, now, window);
        let lk = ev.last().0;
        let l = live_stamps(ev.last().1, now, window);
        lemma_history_dom(d, lk);
        assert(!history_of(d).dom().contains(lk));
        let target = Map::new(
            |k: Seq<char>|
                history_of(ev).dom().contains(k) && live_stamps(history_of(ev)[k], now, window).len()
                    > 0,
            |k: Seq<char>| live_stamps(history_of(ev)[k], now, window),
        );
        let r = cleaned(d, now, window);
        let c = cleaned(ev, now, window);
        let tr = Map::new(
            |k: Seq<char>|
                history_of(d).dom().contains(k) && live_stamps(history_of(d)[k], now, window).len()
                    > 0,
            |k: Seq<char>| live_stamps(history_of(d)[k], now, window),
        );
        assert(history_of(r) == tr);
        assert(history_of(ev) == history_of(d).insert(lk, ev.last().1));
        if l.len() > 0 {
            assert(c.drop_last() =~= r);
            assert(c.last() == (lk, l));
            assert(history_of(c) == history_of(r).insert(lk, l));
        } else {
            assert(c == r);
        }
        assert forall|k: Seq<char>| #[trigger] history_of(c).dom().contains(k) == target.dom().contains(k) by {
            if k != lk {
                assert(history_of(ev).dom().contains(k) == history_of(d).dom().contains(k));
            }
        }
        assert forall|k: Seq<char>| history_of(c).dom().contains(k) implies #[trigger] history_of(c)[k]
            == target[k] by {
            if k != lk {
                assert(history_of(ev)[k] == history_of(d)[k]);
            }
        }
        assert(history_of(c) =~= target);
    }
}

impl RateLimiter {
    /// The windows as keys with their request times.
    pub closed spec fn windows(&self) -> Seq<KeyHistory> {
        self.entries@.map_values(|e: KeyWindow| (e.key@, e.stamps@))
    }

    /// The recorded request times of every key seen.
    pub open spec fn history(&self) -> Map<Seq<char>, Seq<u64>> {
        history_of(self.windows())
    }

    pub closed spec fn max(&self) -> u32 {
        self.max_requests
    }

    pub closed spec fn window(&self) -> u64 {
        self.window_nanos
    }

    /// No key is recorded twice and no key holds more requests than allowed.
    pub closed spec fn wf(&self) -> bool {
        &&& distinct_keys(self.windows())
        &&& forall|i: int|
            0 <= i < self.entries@.len() ==> self.entries@[i].stamps@.len() <= self.max_requests
    }

    /// The requests of `key` that count at `now`.
    pub open spec fn live_of(&self, key: Seq<char>, now: u64) -> Seq<u64> {
        if self.history().dom().contains(key) {
            live_stamps(self.history()[key], now, self.window())
        } else {
            seq![]
        }
    }

    pub fn new(max_requests: u32, window_nanos: u64) -> (r: Self)
        ensures
            r.wf(),
            r.max() == max_requests,
            r.window() == window_nanos,
            r.history() == Map::<Seq<char>, Seq<u64>>::empty(),
    {
        let r = RateLimiter { max_requests, window_nanos, entries: Vec::new() };
        assert(r.windows() =~= Seq::<KeyHistory>::empty());
        r
    }

    /// Default: 60 requests per minute
    pub fn default_limits() -> (r: Self)
        ensures
            r.wf(),
            r.max() == 60,
            r.window() == 60_000_000_000,
            r.history() == Map::<Seq<char>, Seq<u64>>::empty(),
    {
        Self::new(60, 60_000_000_000)
    }

    /// Position of `key` among the entries, if recorded.
    fn find(&self, key: &String) -> (r: Option<usize>)
        ensures
            match r {
                Some(i) => i < self.entries@.len() && self.entries@[i as int].key@ == key@,
                None => forall|j: int| 0 <= j < self.entries@.len() ==> self.entries@[j].key@ != key@,
            },
    {
        let mut i: usize = 0;
        while i < self.entries.len()
            invariant
                i <= self.entries@.len(),
                forall|j: int| 0 <= j < i ==> self.entries@[j].key@ != key@,
            decreases self.entries.len() - i,
        {
            if self.entries[i].key == *key {
                return Some(i);
            }
            i = i + 1;
        }
        None
    }

    /// The live part of `stamps` at `now`.
    fn live_part(stamps: &Vec<u64>, now: u64, window: u64) -> (r: Vec<u64>)
        ensures
            r@ == live_stamps(stamps@, now, window),
            r@.len() <= stamps@.len(),
    {
        let mut out: Vec<u64> = Vec::new();
        let mut i: usize = 0;
        assert(stamps@.take(0) =~= Seq::<u64>::empty());
        while i < stamps.len()
            invariant
                i <= stamps@.len(),
                out@ == live_stamps(stamps@.take(i as int), now, window),
            decreases stamps.len() - i,
        {
            assert(stamps@.take(i + 1).drop_last() =~= stamps@.take(i as int));
            let t = stamps[i];
            if now < window || t > now - window {
                out.push(t);
            }
            i = i + 1;
        }
        assert(stamps@.take(stamps.len() as int) =~= stamps@);
        proof {
            lemma_live_len(stamps@, now, window);
        }
        out
    }

    /// Check if a request is allowed for the given key at time `now`.
    /// Returns `Ok(remaining)` if allowed, `Err(retry_after_nanos)` if rate limited.
    /// Either way the key's expired requests are forgotten; an allowed
    /// request is recorded.
    pub fn check(&mut self, key: &str, now: u64) -> (r: Result<u32, u64>)
        requires
            old(self).wf(),
        ensures
            final(self).wf(),
            final(self).max() == old(self).max(),
            final(self).window() == old(self).window(),
            ({
                let live = old(self).live_of(key@, now);
                if live.len() >= old(self).max() {
                    &&& r == Err::<u32, u64>(retry_after(live, now, old(self).window()))
                    &&& final(self).history() == old(self).history().insert(key@, live)
                } else {
                    &&& r == Ok::<u32, u64>((old(self).max() - live.len() - 1) as u32)
                    &&& final(self).history() == old(self).history().insert(key@, live.push(now))
                }
            }),
    {
        let ghost h0 = self.history();
        let k = String::from_str(key);
        let idx = match self.find(&k) {
            Some(i) => {
                proof {
                    assert(self.windows()[i as int].0 == key@);
                    lemma_history_at(self.windows(), i as int);
                }
                i
            },
            None => {
                let ghost w0 = self.windows();
                proof {
                    lemma_history_dom(w0, key@);
                    if exists|i: int| 0 <= i < w0.len() && w0[i].0 == key@ {
                        let i = choose|i: int| 0 <= i < w0.len() && w0[i].0 == key@;
                        assert(self.entries@[i].key@ == key@);
                    }
                }
                self.entries.push(KeyWindow { key: k, stamps: Vec::new() });
                let n = self.entries.len() - 1;
                proof {
                    assert(self.windows() =~= w0.push((key@, Seq::<u64>::empty())));
                    assert(self.windows().drop_last() =~= w0);
                    assert forall|i: int, j: int|
                        0 <= i < j < self.windows().len() implies self.windows()[i].0
                        != self.windows()[j].0 by {
                        if j == n {
                            assert(self.windows()[i] == w0[i]);
                            assert(w0[i].0 == old(self).entries@[i].key@);
                        }
                    }
                }
                n
            },
        };
        let ghost h1 = self.history();
        let ghost w1 = self.windows();
        assert(h1.dom().contains(key@));
        assert(h1 == h0.insert(key@, h1[key@]));
        assert(old(self).live_of(key@, now) == live_stamps(h1[key@], now, self.window_nanos));
        let live = Self::live_part(&self.entries[idx].stamps, now, self.window_nanos);
        assert(self.entries@[idx as int].stamps@ == h1[key@]) by {
            assert(w1[idx as int].0 == key@);
            lemma_history_at(w1, idx as int);
        }
        let count = live.len();
        let over = count >= self.max_requests as usize;
        let retry: u64 = if over {
            let oldest = if live.len() > 0 { live[0] } else { now };
            let elapsed: u64 = if now >= oldest { now - oldest } else { 0 };
            if self.window_nanos > elapsed { self.window_nanos - elapsed } else { 0 }
        } else {
            0
        };
        let mut new_stamps = live;
        if !over {
            new_stamps.push(now);
        }
        let ghost ns = new_stamps@;
        self.entries[idx].stamps = new_stamps;
        proof {
            assert(self.windows() =~= w1.update(idx as int, (w1[idx as int].0, ns)));
            lemma_history_update(w1, idx as int, ns);
            assert(self.history() =~= h0.insert(key@, ns));
        }
        if over {
            Err(retry)
        } else {
            Ok(self.max_requests - count as u32 - 1)
        }
    }

    /// Current usage for a key: its requests that count at `now`.
    pub fn usage(&self, key: &str, now: u64) -> (r: u32)
        requires
            self.wf(),
        ensures
            r == self.live_of(key@, now).len(),
    {
        let k = String::from_str(key);
        match self.find(&k) {
            Some(i) => {
                proof {
                    assert(self.windows()[i as int].0 == key@);
                    lemma_history_at(self.windows(), i as int);
                }
                let live = Self::live_part(&self.entries[i].stamps, now, self.window_nanos);
                live.len() as u32
            },
            None => {
                proof {
                    lemma_history_dom(self.windows(), key@);
                    if exists|i: int| 0 <= i < self.windows().len() && self.windows()[i].0 == key@ {
                        let i = choose|i: int|
                            0 <= i < self.windows().len() && self.windows()[i].0 == key@;
                        assert(self.entries@[i].key@ == key@);
                    }
                }
                0
            },
        }
    }

    /// Forget expired requests, and every key left without any.
    pub fn cleanup(&mut self, now: u64)
        requires
            old(self).wf(),
        ensures
            final(self).wf(),
            final(self).max() == old(self).max(),
            final(self).window() == old(self).window(),
            final(self).history() == Map::new(
                |k: Seq<char>| old(self).history().dom().contains(k) && old(self).live_of(k, now).len() > 0,
                |k: Seq<char>| old(self).live_of(k, now),
            ),
    {
        let ghost w0 = self.windows();
        let mut old_entries: Vec<KeyWindow> = Vec::new();
        std::mem::swap(&mut old_entries, &mut self.entries);
        assert(w0 =~= old_entries@.map_values(|e: KeyWindow| (e.key@, e.stamps@)));
        let mut kept: Vec<KeyWindow> = Vec::new();
        let mut i: usize = 0;
        assert(w0.take(0) =~= Seq::<KeyHistory>::empty());
        while i < old_entries.len()
            invariant
                w0 =~= old_entries@.map_values(|e: KeyWindow| (e.key@, e.stamps@)),
                i <= old_entries@.len(),
                forall|a: int|
                    0 <= a < old_entries@.len() ==> old_entries@[a].stamps@.len() <= self.max_requests,
                kept@.map_values(|e: KeyWindow| (e.key@, e.stamps@)) =~= cleaned(
                    w0.take(i as int),
                    now,
                    self.window_nanos,
                ),
                forall|a: int| 0 <= a < kept@.len() ==> kept@[a].stamps@.len() <= self.max_requests,
            decreases old_entries.len() - i,
        {
            assert(w0.take(i + 1).drop_last() =~= w0.take(i as int));
            assert(w0.take(i + 1).last() == w0[i as int]);
            let live = Self::live_part(&old_entries[i].stamps, now, self.window_nanos);
            if live.len() > 0 {
                let ghost before = kept@.map_values(|e: KeyWindow| (e.key@, e.stamps@));
                kept.push(KeyWindow { key: old_entries[i].key.clone(), stamps: live });
                assert(kept@.map_values(|e: KeyWindow| (e.key@, e.stamps@)) =~= before.push(
                    (w0[i as int].0, live_stamps(w0[i as int].1, now, self.window_nanos)),
                ));
            }
            i = i + 1;
        }
        assert(w0.take(old_entries.len() as int) =~= w0);
        self.entries = kept;
        proof {
            lemma_cleaned_distinct(w0, now, self.window_nanos);
            lemma_cleaned_history(w0, now, self.window_nanos);
            assert(self.windows() =~= cleaned(w0, now, self.window_nanos));
            let target = Map::new(
                |k: Seq<char>| old(self).history().dom().contains(k) && old(self).live_of(k, now).len() > 0,
                |k: Seq<char>| old(self).live_of(k, now),
            );
            assert(self.history() =~= target);
        }
    }
}


/// No key ever has more requests counted than the limit allows: in every
/// well-formed limiter (as `new`, `check` and `cleanup` leave it), at every
/// moment.
pub proof fn lemma_never_over_limit(l: RateLimiter, key: Seq<char>, now: u64)
    requires
        l.wf(),
    ensures
        l.live_of(key, now).len() <= l.max(),
{
    let ev = l.windows();
    lemma_history_dom(ev, key);
    if l.history().dom().contains(key) {
        let i = choose|i: int| 0 <= i < ev.len() && ev[i].0 == key;
        lemma_history_at(ev, i);
        assert(l.entries@[i].stamps@.len() <= l.max_requests);
        lemma_live_len(l.history()[key], now, l.window());
    }
}

/// Keys are independent: whatever a check of `key` records (its live
/// requests, with or without the new one), the requests counted for any
/// other key, at any moment, stay as they were.
pub proof fn lemma_other_keys_unchanged(
    before: RateLimiter,
    after: RateLimiter,
    key: Seq<char>,
    stamps: Seq<u64>,
    other: Seq<char>,
    at: u64,
)
    requires
        key != other,
        after.window() == before.window(),
        after.history() == before.history().insert(key, stamps),
    ensures
        after.live_of(other, at) == before.live_of(other, at),
{
}

} // verus!
