//! The bookkeeping of the contract-event projection runtime: a cache of
//! finished projections by key, and the keys whose projection is running.
//!
//! A request is served from a fresh cache entry without any new work;
//! otherwise it joins the projection already running for its key, or starts
//! one if fewer than the limit are running, and meanwhile may be served a
//! stale entry. The cache keeps at most its limit of entries, dropping the
//! oldest. The waiting, the worker threads and the clock are the caller's.
use vstd::prelude::*;

use crate::keyed::Keyed;

verus! {

/// Most projections running at once.
pub const MAX_RUNNING: usize = 2;

/// Most cache entries, and most keys in flight.
pub const MAX_ENTRIES: usize = 64;

/// Age up to which a cache entry is fresh, in nanoseconds.
pub const FRESH_TTL_NANOS: u64 = 10_000_000_000;

/// Age up to which a cache entry may still be served stale, in nanoseconds.
pub const STALE_TTL_NANOS: u64 = 300_000_000_000;

/// How long a request waits for a running projection, in milliseconds.
pub const WAIT_BUDGET_MS: u64 = 4_000;

/// When a caller should retry after an unavailable projection.
pub const RETRY_AFTER_MS: u64 = 2_000;

/// What identifies a projection: the canonical text of its query.
pub struct ProjectionKey {
    pub text: String,
}

impl ProjectionKey {
    pub fn new(value: String) -> (r: Self)
        ensures
            r.text == value,
    {
        ProjectionKey { text: value }
    }
}

/// Why a projection failed.
pub struct ProjectionFailure {
    pub error_code: &'static str,
}

impl ProjectionFailure {
    pub fn new(error_code: &'static str) -> (r: Self)
        ensures
            r.error_code == error_code,
    {
        ProjectionFailure { error_code }
    }
}

/// Why no fresh projection could be served.
#[derive(PartialEq, Eq, Structural, Clone, Copy, Debug)]
pub enum ProjectionUnavailableReason {
    Busy,
    Timeout,
    Failed,
    RefreshInProgress,
}

pub open spec fn reason_code(reason: ProjectionUnavailableReason) -> Seq<char> {
    match reason {
        ProjectionUnavailableReason::Busy => "contract_projection_busy"@,
        ProjectionUnavailableReason::Timeout => "contract_projection_timeout"@,
        ProjectionUnavailableReason::Failed => "contract_projection_failed"@,
        ProjectionUnavailableReason::RefreshInProgress => "contract_projection_refresh_in_progress"@,
    }
}

impl ProjectionUnavailableReason {
    /// The error code reported for the reason.
    pub fn error_code(self) -> (r: &'static str)
        ensures
            r@ == reason_code(self),
    {
        match self {
            ProjectionUnavailableReason::Busy => "contract_projection_busy",
            ProjectionUnavailableReason::Timeout => "contract_projection_timeout",
            ProjectionUnavailableReason::Failed => "contract_projection_failed",
            ProjectionUnavailableReason::RefreshInProgress => "contract_projection_refresh_in_progress",
        }
    }
}

/// A projection that could not be served, and when to retry.
pub struct ProjectionUnavailable {
    pub reason: ProjectionUnavailableReason,
    pub retry_after_ms: u64,
}

impl ProjectionUnavailable {
    pub fn error_code(&self) -> (r: &'static str)
        ensures
            r@ == reason_code(self.reason),
    {
        self.reason.error_code()
    }
}

/// The unavailable answer for a reason, retried after the standard delay.
pub fn unavailable(reason: ProjectionUnavailableReason) -> (r: ProjectionUnavailable)
    ensures
        r.reason == reason,
        r.retry_after_ms == RETRY_AFTER_MS,
{
    ProjectionUnavailable { reason, retry_after_ms: RETRY_AFTER_MS }
}

/// A served projection: fresh, or stale for a reason.
pub enum ProjectionOutcome<T> {
    Fresh { value: T, cache_age_nanos: u64, completed_at_ms: i64 },
    Stale {
        value: T,
        cache_age_nanos: u64,
        completed_at_ms: i64,
        reason: ProjectionUnavailableReason,
    },
}

/// Counters of the runtime.
#[derive(Clone, Copy, PartialEq, Eq, Structural, Debug, Default)]
pub struct ProjectionRuntimeStats {
    pub started: usize,
    pub running: usize,
    pub max_running: usize,
    pub cache_entries: usize,
    pub in_flight: usize,
}

/// A finished projection: when it finished (on the runtime's monotonic
/// clock, in nanoseconds, and in wall milliseconds) and its value.
pub struct CachedProjection<T> {
    pub completed_at: u64,
    pub completed_at_ms: i64,
    pub value: T,
}

/// `now - at`, or zero when `at` is later.
pub open spec fn age(now: u64, at: u64) -> u64 {
    if now >= at {
        (now - at) as u64
    } else {
        0
    }
}

/// What the cache holds for a key at a time.
pub enum CacheLookup {
    Miss,
    Fresh { cache_age_nanos: u64, completed_at_ms: i64 },
    Stale { cache_age_nanos: u64, completed_at_ms: i64 },
}

/// What a request does before waiting.
pub enum BeginStep {
    /// Serve the fresh cache entry; nothing else happens.
    Fresh { cache_age_nanos: u64, completed_at_ms: i64 },
    /// Serve the stale cache entry for the reason.
    Stale {
        cache_age_nanos: u64,
        completed_at_ms: i64,
        reason: ProjectionUnavailableReason,
        start: bool,
    },
    /// Nothing can be served.
    Unavailable(ProjectionUnavailableReason),
    /// Wait for the projection of the key, which this request starts when
    /// `start` is set.
    Wait { start: bool },
}

/// `(t, k)` comes before `(u, j)`: earlier, or as early with a smaller key.
pub open spec fn older(t: u64, k: Seq<char>, u: u64, j: Seq<char>) -> bool {
    t < u || (t == u && key_lt(k, j))
}

/// Keys in the order of their UTF-8 bytes, which is the order of their
/// characters' code points.
pub open spec fn key_lt(a: Seq<char>, b: Seq<char>) -> bool
    decreases a.len(),
{
    if a.len() == 0 {
        b.len() > 0
    } else if b.len() == 0 {
        false
    } else if a[0] != b[0] {
        (a[0] as u32) < (b[0] as u32)
    } else {
        key_lt(a.drop_first(), b.drop_first())
    }
}

pub(crate) fn key_lt_exec(a: &Vec<char>, b: &Vec<char>) -> (r: bool)
    ensures
        r == key_lt(a@, b@),
{
    let mut i: usize = 0;
    proof {
        assert(a@.skip(0) =~= a@);
        assert(b@.skip(0) =~= b@);
    }
    while i < a.len() && i < b.len() && a[i] == b[i]
        invariant
            i <= a@.len(),
            i <= b@.len(),
            forall|j: int| 0 <= j < i ==> a@[j] == b@[j],
            key_lt(a@, b@) == key_lt(a@.skip(i as int), b@.skip(i as int)),
        decreases a.len() - i,
    {
        proof {
            assert(a@.skip(i as int).drop_first() =~= a@.skip(i + 1));
            assert(b@.skip(i as int).drop_first() =~= b@.skip(i + 1));
        }
        i = i + 1;
    }
    if i == a.len() {
        i < b.len()
    } else if i == b.len() {
        false
    } else {
        (a[i] as u32) < (b[i] as u32)
    }
}

/// `k` is the oldest key of the cache `m`.
pub open spec fn is_oldest<T>(m: Map<Seq<char>, CachedProjection<T>>, k: Seq<char>) -> bool {
    &&& m.contains_key(k)
    &&& forall|j: Seq<char>|
        #[trigger] m.contains_key(j) && j != k ==> older(m[k].completed_at, k, m[j].completed_at, j)
}

/// What a request for `key` at `now` is told, and the keys in flight
/// after it, for a cache with `entries`, keys `running`, at most `limit`
/// in flight and the two ages: see [`ProjectionCache::begin`].
pub open spec fn begin_outcome<T>(
    entries: Map<Seq<char>, CachedProjection<T>>,
    running: Set<Seq<char>>,
    limit: int,
    fresh_ttl: int,
    stale_ttl: int,
    key: Seq<char>,
    now: u64,
) -> (BeginStep, Set<Seq<char>>) {
    let cached = entries.contains_key(key);
    let a = age(now, entries[key].completed_at);
    let fresh = cached && a <= fresh_ttl;
    let stale = cached && !fresh && a <= stale_ttl;
    let joined = running.contains(key);
    let full = !joined && running.len() >= limit;
    let starts = !fresh && !joined && !full;
    let step = if fresh {
        BeginStep::Fresh { cache_age_nanos: a, completed_at_ms: entries[key].completed_at_ms }
    } else if full {
        if stale {
            BeginStep::Stale {
                cache_age_nanos: a,
                completed_at_ms: entries[key].completed_at_ms,
                reason: ProjectionUnavailableReason::Busy,
                start: false,
            }
        } else {
            BeginStep::Unavailable(ProjectionUnavailableReason::Busy)
        }
    } else if stale {
        BeginStep::Stale {
            cache_age_nanos: a,
            completed_at_ms: entries[key].completed_at_ms,
            reason: ProjectionUnavailableReason::RefreshInProgress,
            start: starts,
        }
    } else {
        BeginStep::Wait { start: starts }
    };
    (step, if starts { running.insert(key) } else { running })
}

/// Whether a request's first step starts a projection.
pub open spec fn starts_projection(step: BeginStep) -> bool {
    match step {
        BeginStep::Wait { start } => start,
        BeginStep::Stale { start, .. } => start,
        _ => false,
    }
}

/// The cache after the projection of `key` ends with `result`: unchanged
/// on a failure; else the result enters, and when that puts the cache over
/// `limit` its oldest entry leaves.
pub open spec fn finish_outcome<T>(
    entries: Map<Seq<char>, CachedProjection<T>>,
    limit: int,
    key: Seq<char>,
    result: Option<CachedProjection<T>>,
    after: Map<Seq<char>, CachedProjection<T>>,
) -> bool {
    match result {
        None => after == entries,
        Some(c) => {
            let m = entries.insert(key, c);
            if m.dom().len() <= limit {
                after == m
            } else {
                exists|k: Seq<char>| is_oldest(m, k) && after == m.remove(k)
            }
        },
    }
}

/// The cache and the keys in flight.
pub struct ProjectionCache<T> {
    cache: Keyed<CachedProjection<T>>,
    in_flight: Keyed<()>,
    max_entries: usize,
    fresh_ttl: u64,
    stale_ttl: u64,
}

impl<T> ProjectionCache<T> {
    /// The entries are consistent and within their limits.
    pub closed spec fn wf(&self) -> bool {
        &&& self.cache.wf()
        &&& self.in_flight.wf()
        &&& self.max_entries >= 1
        &&& self.cache.view().dom().len() <= self.max_entries
        &&& self.in_flight.view().dom().len() <= self.max_entries
        &&& self.fresh_ttl <= self.stale_ttl
    }

    pub closed spec fn entries(&self) -> Map<Seq<char>, CachedProjection<T>> {
        self.cache.view()
    }

    pub closed spec fn running(&self) -> Set<Seq<char>> {
        self.in_flight.view().dom()
    }

    pub closed spec fn limit(&self) -> int {
        self.max_entries as int
    }

    pub closed spec fn fresh_ttl(&self) -> int {
        self.fresh_ttl as int
    }

    pub closed spec fn stale_ttl(&self) -> int {
        self.stale_ttl as int
    }

    pub proof fn lemma_bounds(&self)
        requires
            self.wf(),
        ensures
            self.entries().dom().finite(),
            self.entries().dom().len() <= self.limit(),
            self.running().finite(),
            self.running().len() <= self.limit(),
            self.limit() >= 1,
            self.fresh_ttl() <= self.stale_ttl(),
    {
        crate::keyed::lemma_entries_map(self.cache.entries@);
        crate::keyed::lemma_entries_map(self.in_flight.entries@);
    }

    /// An empty cache with the standard limits.
    pub fn new() -> (r: Self)
        ensures
            r.wf(),
            r.entries() == Map::<Seq<char>, CachedProjection<T>>::empty(),
            r.running() == Set::<Seq<char>>::empty(),
            r.limit() == MAX_ENTRIES,
            r.fresh_ttl() == FRESH_TTL_NANOS,
            r.stale_ttl() == STALE_TTL_NANOS,
    {
        Self::with_config(MAX_ENTRIES, FRESH_TTL_NANOS, STALE_TTL_NANOS)
    }

    /// An empty cache with at least one entry, and a stale age no shorter
    /// than the fresh one.
    pub fn with_config(max_entries: usize, fresh_ttl: u64, stale_ttl: u64) -> (r: Self)
        ensures
            r.wf(),
            r.entries() == Map::<Seq<char>, CachedProjection<T>>::empty(),
            r.running() == Set::<Seq<char>>::empty(),
            r.limit() == if max_entries >= 1 { max_entries as int } else { 1 },
            r.fresh_ttl() == fresh_ttl,
            r.stale_ttl() == if stale_ttl >= fresh_ttl { stale_ttl } else { fresh_ttl },
    {
        let cache: Keyed<CachedProjection<T>> = Keyed::new();
        let in_flight: Keyed<()> = Keyed::new();
        proof {
            crate::keyed::lemma_entries_map(cache.entries@);
            crate::keyed::lemma_entries_map(in_flight.entries@);
        }
        ProjectionCache {
            cache,
            in_flight,
            max_entries: if max_entries >= 1 {
                max_entries
            } else {
                1
            },
            fresh_ttl,
            stale_ttl: if stale_ttl >= fresh_ttl {
                stale_ttl
            } else {
                fresh_ttl
            },
        }
    }

    /// Number of cache entries.
    pub fn cache_len(&self) -> (r: usize)
        requires
            self.wf(),
        ensures
            r == self.entries().dom().len(),
    {
        self.cache.len()
    }

    /// Number of keys in flight.
    pub fn in_flight_len(&self) -> (r: usize)
        requires
            self.wf(),
        ensures
            r == self.running().len(),
    {
        self.in_flight.len()
    }

    /// The cached value of a key, if any.
    pub fn cached_value(&self, key: &str) -> (r: Option<&T>)
        requires
            self.wf(),
        ensures
            r is None <==> !self.entries().contains_key(key@),
            r matches Some(v) ==> *v == self.entries()[key@].value,
    {
        match self.cache.get(key) {
            Some(c) => Some(&c.value),
            None => None,
        }
    }

    /// What the cache holds for `key` at `now`: fresh up to the fresh age,
    /// stale up to the stale age, else nothing.
    pub fn lookup(&self, key: &str, now: u64) -> (r: CacheLookup)
        requires
            self.wf(),
        ensures
            !self.entries().contains_key(key@) ==> r is Miss,
            self.entries().contains_key(key@) ==> {
                let c = self.entries()[key@];
                let a = age(now, c.completed_at);
                if a <= self.fresh_ttl() {
                    r == CacheLookup::Fresh { cache_age_nanos: a, completed_at_ms: c.completed_at_ms }
                } else if a <= self.stale_ttl() {
                    r == CacheLookup::Stale { cache_age_nanos: a, completed_at_ms: c.completed_at_ms }
                } else {
                    r is Miss
                }
            },
    {
        match self.cache.get(key) {
            None => CacheLookup::Miss,
            Some(c) => {
                let a: u64 = if now >= c.completed_at {
                    now - c.completed_at
                } else {
                    0
                };
                if a <= self.fresh_ttl {
                    CacheLookup::Fresh { cache_age_nanos: a, completed_at_ms: c.completed_at_ms }
                } else if a <= self.stale_ttl {
                    CacheLookup::Stale { cache_age_nanos: a, completed_at_ms: c.completed_at_ms }
                } else {
                    CacheLookup::Miss
                }
            },
        }
    }

    /// The first step of a request for `key` at `now`. A fresh entry is
    /// served and nothing else changes. Otherwise the key's running
    /// projection is joined; when none runs, one is started unless the
    /// limit of keys in flight is reached, in which case a stale entry is
    /// served as busy, or the request is refused as busy. A started or
    /// joined projection serves a stale entry while it refreshes, else the
    /// request waits for it.
    pub fn begin(&mut self, key: &str, now: u64) -> (r: BeginStep)
        requires
            old(self).wf(),
        ensures
            final(self).wf(),
            final(self).entries() == old(self).entries(),
            final(self).limit() == old(self).limit(),
            final(self).fresh_ttl() == old(self).fresh_ttl(),
            final(self).stale_ttl() == old(self).stale_ttl(),
            (r, final(self).running()) == begin_outcome(
                old(self).entries(),
                old(self).running(),
                old(self).limit(),
                old(self).fresh_ttl(),
                old(self).stale_ttl(),
                key@,
                now,
            ),
    {
        proof {
            self.lemma_bounds();
        }
        let found = self.lookup(key, now);
        if let CacheLookup::Fresh { cache_age_nanos, completed_at_ms } = found {
            return BeginStep::Fresh { cache_age_nanos, completed_at_ms };
        }
        let joined = self.in_flight.find(key).is_some();
        let mut start = false;
        if !joined {
            if self.in_flight.len() >= self.max_entries {
                return match found {
                    CacheLookup::Stale { cache_age_nanos, completed_at_ms } => BeginStep::Stale {
                        cache_age_nanos,
                        completed_at_ms,
                        reason: ProjectionUnavailableReason::Busy,
                        start: false,
                    },
                    _ => BeginStep::Unavailable(ProjectionUnavailableReason::Busy),
                };
            }
            proof {
                crate::keyed::lemma_entries_map(self.in_flight.entries@);
            }
            self.in_flight.insert(String::from_str(key), ());
            proof {
                crate::keyed::lemma_entries_map(self.in_flight.entries@);
                assert(self.in_flight.view().dom() =~= old(self).in_flight.view().dom().insert(
                    key@,
                ));
            }
            start = true;
        }
        match found {
            CacheLookup::Stale { cache_age_nanos, completed_at_ms } => BeginStep::Stale {
                cache_age_nanos,
                completed_at_ms,
                reason: ProjectionUnavailableReason::RefreshInProgress,
                start,
            },
            _ => BeginStep::Wait { start },
        }
    }

    /// Index of the oldest cache entry.
    fn oldest_index(&self) -> (r: usize)
        requires
            self.cache.wf(),
            self.cache.entries@.len() > 0,
        ensures
            r < self.cache.entries@.len(),
            is_oldest(self.cache.view(), self.cache.entries@[r as int].0@),
    {
        let entries = &self.cache.entries;
        let mut best: usize = 0;
        let mut best_key = crate::text::chars_of(entries[0].0.as_str());
        let mut i: usize = 1;
        while i < entries.len()
            invariant
                entries == &self.cache.entries,
                self.cache.wf(),
                1 <= i <= entries@.len(),
                best < i,
                best_key@ == entries@[best as int].0@,
                forall|j: int|
                    0 <= j < i && j != best ==> older(
                        entries@[best as int].1.completed_at,
                        entries@[best as int].0@,
                        #[trigger] entries@[j].1.completed_at,
                        entries@[j].0@,
                    ),
            decreases entries.len() - i,
        {
            let k = crate::text::chars_of(entries[i].0.as_str());
            let t = entries[i].1.completed_at;
            let bt = entries[best].1.completed_at;
            if t < bt || (t == bt && key_lt_exec(&k, &best_key)) {
                proof {
                    assert forall|j: int| 0 <= j < i + 1 && j != i implies older(
                        entries@[i as int].1.completed_at,
                        entries@[i as int].0@,
                        #[trigger] entries@[j].1.completed_at,
                        entries@[j].0@,
                    ) by {
                        lemma_older_trans_total(entries@, i as int, best as int, j);
                    }
                }
                best = i;
                best_key = k;
            } else {
                proof {
                    assert(entries@[i as int].0@ != entries@[best as int].0@);
                    lemma_older_total(
                        entries@[best as int].1.completed_at,
                        entries@[best as int].0@,
                        entries@[i as int].1.completed_at,
                        entries@[i as int].0@,
                    );
                }
            }
            i = i + 1;
        }
        proof {
            crate::keyed::lemma_entries_map(self.cache.entries@);
            let m = self.cache.view();
            let bk = entries@[best as int].0@;
            assert forall|j: Seq<char>| #[trigger] m.contains_key(j) && j != bk implies older(
                m[bk].completed_at,
                bk,
                m[j].completed_at,
                j,
            ) by {
                let jj = choose|jj: int| 0 <= jj < entries@.len() && entries@[jj].0@ == j;
                assert(jj != best);
            }
        }
        best
    }

    /// Records the end of the projection of `key`: it is no longer in
    /// flight, and a success enters the cache, the oldest entry leaving when
    /// the cache is over its limit.
    pub fn finish(&mut self, key: &str, result: Option<CachedProjection<T>>)
        requires
            old(self).wf(),
        ensures
            final(self).wf(),
            final(self).running() == old(self).running().remove(key@),
            final(self).limit() == old(self).limit(),
            final(self).fresh_ttl() == old(self).fresh_ttl(),
            final(self).stale_ttl() == old(self).stale_ttl(),
            finish_outcome(old(self).entries(), old(self).limit(), key@, result, final(self).entries()),
    {
        proof {
            self.lemma_bounds();
        }
        self.in_flight.remove(key);
        proof {
            crate::keyed::lemma_entries_map(self.in_flight.entries@);
            assert(self.in_flight.view().dom() =~= old(self).in_flight.view().dom().remove(key@));
        }
        if let Some(c) = result {
            self.cache.insert(String::from_str(key), c);
            proof {
                crate::keyed::lemma_entries_map(self.cache.entries@);
                assert(self.cache.view().dom() =~= old(self).cache.view().dom().insert(key@));
            }
            if self.cache.len() > self.max_entries {
                let i = self.oldest_index();
                let oldest = crate::text::chars_of(self.cache.entries[i].0.as_str());
                let oldest_key = crate::text::string_of(&oldest);
                let ghost before = self.cache.view();
                self.cache.remove(oldest_key.as_str());
                proof {
                    crate::keyed::lemma_entries_map(self.cache.entries@);
                    assert(before.contains_key(oldest_key@));
                    assert(self.cache.view().dom() =~= before.dom().remove(oldest_key@));
                }
            }
        }
    }
}

/// Requests for one key share one projection: while the key is in flight a
/// request starts nothing and leaves the keys in flight as they are, and a
/// request that starts one puts its key in flight, so that of two requests
/// for a key with no end in between, at most one starts a projection.
pub proof fn law_one_projection_per_key<T>(
    entries: Map<Seq<char>, CachedProjection<T>>,
    running: Set<Seq<char>>,
    limit: int,
    fresh_ttl: int,
    stale_ttl: int,
    key: Seq<char>,
    now: u64,
    later: u64,
)
    ensures
        running.contains(key) ==> !starts_projection(
            begin_outcome(entries, running, limit, fresh_ttl, stale_ttl, key, now).0,
        ) && begin_outcome(entries, running, limit, fresh_ttl, stale_ttl, key, now).1 == running,
        starts_projection(begin_outcome(entries, running, limit, fresh_ttl, stale_ttl, key, now).0)
            ==> begin_outcome(entries, running, limit, fresh_ttl, stale_ttl, key, now).1.contains(
            key,
        ),
        ({
            let first = begin_outcome(entries, running, limit, fresh_ttl, stale_ttl, key, now);
            let second = begin_outcome(entries, first.1, limit, fresh_ttl, stale_ttl, key, later);
            !(starts_projection(first.0) && starts_projection(second.0))
        }),
{
}

/// A finished projection is served fresh, with no new work, to every
/// request for its key while it is younger than the fresh age.
pub proof fn law_finished_projection_served_fresh<T>(
    entries: Map<Seq<char>, CachedProjection<T>>,
    running: Set<Seq<char>>,
    limit: int,
    fresh_ttl: int,
    stale_ttl: int,
    key: Seq<char>,
    c: CachedProjection<T>,
    now: u64,
)
    requires
        entries.contains_key(key),
        entries[key] == c,
        age(now, c.completed_at) <= fresh_ttl,
    ensures
        begin_outcome(entries, running, limit, fresh_ttl, stale_ttl, key, now) == (
        BeginStep::Fresh { cache_age_nanos: age(now, c.completed_at), completed_at_ms: c.completed_at_ms },
        running,
        ),
{
}

/// A successful projection is in the cache once it ends, unless the cache
/// was full and it is the oldest entry of all.
pub proof fn law_finished_projection_is_cached<T>(
    entries: Map<Seq<char>, CachedProjection<T>>,
    limit: int,
    key: Seq<char>,
    c: CachedProjection<T>,
    after: Map<Seq<char>, CachedProjection<T>>,
)
    requires
        finish_outcome(entries, limit, key, Some(c), after),
        entries.insert(key, c).dom().len() <= limit || !is_oldest(entries.insert(key, c), key),
    ensures
        after.contains_key(key),
        after[key] == c,
{
    let m = entries.insert(key, c);
    if m.dom().len() > limit {
        let k = choose|k: Seq<char>| is_oldest(m, k) && after == m.remove(k);
        assert(k != key);
    }
}

/// Two different keys are always ordered one way or the other.
pub proof fn lemma_older_total(t: u64, k: Seq<char>, u: u64, j: Seq<char>)
    requires
        k != j,
    ensures
        older(t, k, u, j) || older(u, j, t, k),
{
    lemma_key_lt_total(k, j);
}

pub proof fn lemma_key_lt_total(a: Seq<char>, b: Seq<char>)
    requires
        a != b,
    ensures
        key_lt(a, b) || key_lt(b, a),
    decreases a.len(),
{
    if a.len() > 0 && b.len() > 0 && a[0] == b[0] {
        assert(a.drop_first() != b.drop_first()) by {
            if a.drop_first() == b.drop_first() {
                assert(a =~= seq![a[0]] + a.drop_first());
                assert(b =~= seq![b[0]] + b.drop_first());
            }
        }
        lemma_key_lt_total(a.drop_first(), b.drop_first());
    } else if a.len() == 0 && b.len() == 0 {
        assert(a =~= b);
    } else if a.len() > 0 && b.len() > 0 {
        vstd::utf8::char_u32_cast(a[0], a[0] as u32);
        vstd::utf8::char_u32_cast(b[0], b[0] as u32);
    }
}

pub proof fn lemma_key_lt_trans(a: Seq<char>, b: Seq<char>, c: Seq<char>)
    requires
        key_lt(a, b),
        key_lt(b, c),
    ensures
        key_lt(a, c),
    decreases a.len(),
{
    if a.len() > 0 && b.len() > 0 && c.len() > 0 && a[0] == b[0] && b[0] == c[0] {
        lemma_key_lt_trans(a.drop_first(), b.drop_first(), c.drop_first());
    }
}

/// No key comes before itself.
pub proof fn lemma_key_lt_irrefl(a: Seq<char>)
    ensures
        !key_lt(a, a),
    decreases a.len(),
{
    if a.len() > 0 {
        lemma_key_lt_irrefl(a.drop_first());
    }
}

proof fn lemma_older_trans_total<T>(entries: Seq<(String, CachedProjection<T>)>, i: int, b: int, j: int)
    requires
        0 <= i < entries.len(),
        0 <= b < entries.len(),
        0 <= j < entries.len(),
        j != i,
        crate::keyed::keys_unique(entries),
        entries[i].1.completed_at < entries[b].1.completed_at || (entries[i].1.completed_at
            == entries[b].1.completed_at && key_lt(entries[i].0@, entries[b].0@)),
        j == b || older(
            entries[b].1.completed_at,
            entries[b].0@,
            entries[j].1.completed_at,
            entries[j].0@,
        ),
    ensures
        older(entries[i].1.completed_at, entries[i].0@, entries[j].1.completed_at, entries[j].0@),
{
    if j != b {
        if entries[i].1.completed_at == entries[b].1.completed_at && entries[b].1.completed_at
            == entries[j].1.completed_at {
            lemma_key_lt_trans(entries[i].0@, entries[b].0@, entries[j].0@);
        }
    }
}

/// What a waiting request is answered: the finished value, fresh; a failed
/// or abandoned projection as failed; a wait over its budget as timed out.
pub enum WaitResult<T> {
    Finished(CachedProjection<T>),
    ProjectionFailed,
    ChannelClosed,
    TimedOut,
}

pub fn wait_outcome<T>(result: WaitResult<T>, now: u64) -> (r: Result<
    ProjectionOutcome<T>,
    ProjectionUnavailable,
>)
    ensures
        match result {
            WaitResult::Finished(c) => r matches Ok(ProjectionOutcome::Fresh {
                value,
                cache_age_nanos,
                completed_at_ms,
            }) && value == c.value && cache_age_nanos == age(now, c.completed_at) && completed_at_ms
                == c.completed_at_ms,
            WaitResult::ProjectionFailed | WaitResult::ChannelClosed => r matches Err(e) && e.reason
                == ProjectionUnavailableReason::Failed && e.retry_after_ms == RETRY_AFTER_MS,
            WaitResult::TimedOut => r matches Err(e) && e.reason
                == ProjectionUnavailableReason::Timeout && e.retry_after_ms == RETRY_AFTER_MS,
        },
{
    match result {
        WaitResult::Finished(c) => {
            let a: u64 = if now >= c.completed_at {
                now - c.completed_at
            } else {
                0
            };
            Ok(
                ProjectionOutcome::Fresh {
                    value: c.value,
                    cache_age_nanos: a,
                    completed_at_ms: c.completed_at_ms,
                },
            )
        },
        WaitResult::ProjectionFailed | WaitResult::ChannelClosed => Err(
            unavailable(ProjectionUnavailableReason::Failed),
        ),
        WaitResult::TimedOut => Err(unavailable(ProjectionUnavailableReason::Timeout)),
    }
}

/// A stale answer from a cached projection.
pub fn stale_outcome<T>(cached: CachedProjection<T>, cache_age_nanos: u64, reason: ProjectionUnavailableReason) -> (r:
    ProjectionOutcome<T>)
    ensures
        r == (ProjectionOutcome::Stale {
            value: cached.value,
            cache_age_nanos,
            completed_at_ms: cached.completed_at_ms,
            reason,
        }),
{
    ProjectionOutcome::Stale {
        value: cached.value,
        cache_age_nanos,
        completed_at_ms: cached.completed_at_ms,
        reason,
    }
}

/// The answer when a cached projection is not of the expected kind: failed,
/// retried after the standard delay.
pub fn projection_type_mismatch() -> (r: ProjectionUnavailable)
    ensures
        r.reason == ProjectionUnavailableReason::Failed,
        r.retry_after_ms == RETRY_AFTER_MS,
{
    unavailable(ProjectionUnavailableReason::Failed)
}

} // verus!
