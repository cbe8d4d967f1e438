//! Time-window deduplication of alert keys.
use vstd::prelude::*;

use crate::keyed::Keyed;

verus! {

/// The keys still remembered at `now`: those sent no longer than `window`
/// milliseconds ago.
pub open spec fn prune_map(m: Map<Seq<char>, i64>, window: int, now: int) -> Map<Seq<char>, i64> {
    Map::new(|k: Seq<char>| m.contains_key(k) && now - m[k] <= window, |k: Seq<char>| m[k])
}

/// Whether a key may be sent at `now`, given the remembered send times.
pub open spec fn send_decision(m: Map<Seq<char>, i64>, window: int, key: Seq<char>, now: int) -> bool {
    let p = prune_map(m, window, now);
    if p.contains_key(key) {
        now - p[key] >= window
    } else {
        true
    }
}

/// `now - t` fits in an `i64` for every remembered send time `t`.
pub open spec fn elapsed_fits(m: Map<Seq<char>, i64>, now: int) -> bool {
    forall|k: Seq<char>| #[trigger] m.contains_key(k) ==> i64::MIN <= now - m[k] <= i64::MAX
}

/// Remembers when each alert key was last sent and suppresses repeats
/// inside a window.
pub struct AlertDeduper {
    window_ms: i64,
    last_sent: Keyed<i64>,
}

impl AlertDeduper {
    pub closed spec fn wf(&self) -> bool {
        self.last_sent.wf() && self.window_ms >= 0
    }

    /// The deduplication window in milliseconds.
    pub closed spec fn window(&self) -> int {
        self.window_ms as int
    }

    /// Last send time of every remembered key.
    pub closed spec fn sent(&self) -> Map<Seq<char>, i64> {
        self.last_sent.view()
    }

    /// A deduper with the given window (negative windows count as zero) and
    /// no remembered keys.
    pub fn new(window_ms: i64) -> (r: Self)
        ensures
            r.wf(),
            r.window() == if window_ms < 0 { 0 } else { window_ms as int },
            r.sent() == Map::<Seq<char>, i64>::empty(),
    {
        AlertDeduper {
            window_ms: if window_ms < 0 { 0 } else { window_ms },
            last_sent: Keyed::new(),
        }
    }

    /// Whether `now_ts` is close enough to every remembered send time for
    /// the time since it to be computed.
    pub fn times_fit(&self, now_ts: i64) -> (r: bool)
        requires
            self.wf(),
        ensures
            r == elapsed_fits(self.sent(), now_ts as int),
    {
        proof {
            crate::keyed::lemma_entries_map(self.last_sent.entries@);
        }
        let n = self.last_sent.entries.len();
        let mut i: usize = 0;
        while i < n
            invariant
                i <= n,
                n == self.last_sent.entries@.len(),
                self.wf(),
                forall|j: int|
                    0 <= j < i ==> i64::MIN <= now_ts - (#[trigger] self.last_sent.entries@[j]).1
                        <= i64::MAX,
            decreases n - i,
        {
            let t = self.last_sent.entries[i].1;
            let fits = if t >= 0 {
                now_ts >= i64::MIN + t
            } else {
                now_ts <= i64::MAX + t
            };
            if !fits {
                proof {
                    crate::keyed::lemma_entries_map(self.last_sent.entries@);
                    let k = self.last_sent.entries@[i as int].0@;
                    assert(self.sent().contains_key(k));
                    assert(self.sent()[k] == t);
                }
                return false;
            }
            i = i + 1;
        }
        proof {
            assert forall|k: Seq<char>| #[trigger] self.sent().contains_key(k) implies i64::MIN
                <= now_ts - self.sent()[k] <= i64::MAX by {
                let j = choose|j: int|
                    0 <= j < self.last_sent.entries@.len() && self.last_sent.entries@[j].0@ == k;
                assert(self.sent()[self.last_sent.entries@[j].0@] == self.last_sent.entries@[j].1);
            }
        }
        true
    }

    /// Forgets the keys sent more than the window ago; then answers whether
    /// `key` may be sent at `now_ts`.
    pub fn should_send(&mut self, key: &str, now_ts: i64) -> (r: bool)
        requires
            old(self).wf(),
            elapsed_fits(old(self).sent(), now_ts as int),
        ensures
            final(self).wf(),
            final(self).window() == old(self).window(),
            final(self).sent() == prune_map(old(self).sent(), old(self).window(), now_ts as int),
            r == send_decision(old(self).sent(), old(self).window(), key@, now_ts as int),
    {
        self.prune(now_ts);
        match self.last_sent.find(key) {
            Some(i) => {
                let last_ts = self.last_sent.entries[i].1;
                now_ts - last_ts >= self.window_ms
            },
            None => true,
        }
    }

    /// Records that `key` was sent at `now_ts`.
    pub fn mark_sent(&mut self, key: &str, now_ts: i64)
        requires
            old(self).wf(),
        ensures
            final(self).wf(),
            final(self).window() == old(self).window(),
            final(self).sent() == old(self).sent().insert(key@, now_ts),
    {
        let owned = String::from_str(key);
        self.last_sent.insert(owned, now_ts);
    }

    /// Forgets the keys sent more than the window before `now_ts`.
    pub fn prune(&mut self, now_ts: i64)
        requires
            old(self).wf(),
            elapsed_fits(old(self).sent(), now_ts as int),
        ensures
            final(self).wf(),
            final(self).window() == old(self).window(),
            final(self).sent() == prune_map(old(self).sent(), old(self).window(), now_ts as int),
    {
        let window_ms = self.window_ms;
        let mut flags: Vec<bool> = Vec::new();
        let n = self.last_sent.entries.len();
        let ghost keep = |t: i64| now_ts - t <= window_ms;
        proof {
            crate::keyed::lemma_entries_map(self.last_sent.entries@);
        }
        let mut i: usize = 0;
        while i < n
            invariant
                i <= n,
                n == self.last_sent.entries@.len(),
                self.last_sent.wf(),
                elapsed_fits(self.last_sent.view(), now_ts as int),
                keep == (|t: i64| now_ts - t <= window_ms),
                flags@.len() == i,
                forall|j: int| 0 <= j < i ==> #[trigger] flags@[j] == keep(
                    self.last_sent.entries@[j].1,
                ),
            decreases n - i,
        {
            let t = self.last_sent.entries[i].1;
            proof {
                crate::keyed::lemma_entries_map(self.last_sent.entries@);
                let k = self.last_sent.entries@[i as int].0@;
                assert(self.last_sent.view().contains_key(k));
            }
            flags.push(now_ts - t <= window_ms);
            i = i + 1;
        }
        self.last_sent.retain_flags(&flags, Ghost(keep));
        proof {
            assert(self.sent() =~= prune_map(old(self).sent(), old(self).window(), now_ts as int));
        }
    }
}

/// Once `key` is marked sent at `t`, the next decision for that key at
/// `later` is "send" exactly when the window has fully elapsed since `t`.
pub proof fn law_mark_then_decide(
    sent: Map<Seq<char>, i64>,
    window: int,
    key: Seq<char>,
    t: i64,
    later: int,
)
    requires
        window >= 0,
    ensures
        send_decision(sent.insert(key, t), window, key, later) == (later - t >= window),
{
}

/// Inside the window after a send, the same key is suppressed.
pub proof fn law_suppressed_inside_window(
    sent: Map<Seq<char>, i64>,
    window: int,
    key: Seq<char>,
    t: i64,
    later: int,
)
    requires
        window > 0,
        t <= later < t + window,
    ensures
        !send_decision(sent.insert(key, t), window, key, later),
{
}

/// Pruning twice at the same instant forgets nothing more.
pub proof fn law_prune_idempotent(sent: Map<Seq<char>, i64>, window: int, now: int)
    ensures
        prune_map(prune_map(sent, window, now), window, now) == prune_map(sent, window, now),
{
    assert(prune_map(prune_map(sent, window, now), window, now) =~= prune_map(sent, window, now));
}

/// Keys never seen are always allowed.
pub proof fn law_unknown_key_allowed(
    sent: Map<Seq<char>, i64>,
    window: int,
    key: Seq<char>,
    now: int,
)
    requires
        !sent.contains_key(key),
    ensures
        send_decision(sent, window, key, now),
{
}

} // verus!
