//! The single-slot cache of the retention report: a cached report is served
//! fresh for a quarter of an hour and stale for a day; a refresh runs in the
//! background, one at a time, and a failed one holds the next back for two
//! seconds. Times are nanoseconds on the caller's monotonic clock. Also the
//! status each answer is served with, and the cutoff of a retention period.
use vstd::prelude::*;

use crate::events::{unavailable_retention_tables, unknown_table, ContractRetentionTables};
use crate::orderflow::{sat_sub, saturating_sub_i64};

verus! {

/// How long a report is served as fresh.
pub const RETENTION_FRESH_TTL_NANOS: u64 = 900_000_000_000;

/// How long a report is served at all.
pub const RETENTION_STALE_TTL_NANOS: u64 = 86_400_000_000_000;

/// How long a failed refresh holds back the next.
pub const RETENTION_RETRY_DELAY_NANOS: u64 = 2_000_000_000;

/// How many refreshes were started and how many run now.
#[derive(Clone, Copy, PartialEq, Eq, Structural, Debug)]
pub struct ContractRetentionRuntimeStats {
    pub started: usize,
    pub running: usize,
}

/// A finished report and when it finished: on the monotonic clock and in
/// wall milliseconds.
pub struct CachedRetention<T> {
    pub value: T,
    pub completed_at: u64,
    pub completed_at_ms: i64,
}

/// What a request is answered.
#[derive(Clone, Copy, PartialEq, Eq, Structural, Debug)]
pub enum RetentionSnapshot {
    /// The cached report, fresh.
    Fresh { cache_age_nanos: u64, generated_at_ms: i64 },
    /// The cached report, past its fresh age.
    Stale { cache_age_nanos: u64, generated_at_ms: i64 },
    /// No report to serve; one is being made.
    Refreshing,
    /// No report to serve; the last refresh failed a moment ago.
    RefreshFailed,
}

/// `now - at`, or zero when `at` is later.
pub open spec fn age_at(now: u64, at: u64) -> u64 {
    if now >= at {
        (now - at) as u64
    } else {
        0
    }
}

/// The state of the runtime.
pub struct RetentionRuntime<T> {
    cached: Option<CachedRetention<T>>,
    in_flight: bool,
    retry_not_before: Option<u64>,
    started: usize,
    running: usize,
}

/// The stale answer at `now`, if the cache has a report young enough.
pub open spec fn stale_answer<T>(cached: Option<CachedRetention<T>>, now: u64) -> Option<
    RetentionSnapshot,
> {
    match cached {
        Some(c) => if age_at(now, c.completed_at) <= RETENTION_STALE_TTL_NANOS {
            Some(
                RetentionSnapshot::Stale {
                    cache_age_nanos: age_at(now, c.completed_at),
                    generated_at_ms: c.completed_at_ms,
                },
            )
        } else {
            None
        },
        None => None,
    }
}

/// The cache holds a fresh report at `now`.
pub open spec fn is_fresh<T>(cached: Option<CachedRetention<T>>, now: u64) -> bool {
    cached matches Some(c) && age_at(now, c.completed_at) <= RETENTION_FRESH_TTL_NANOS
}

/// A refresh is held back at `now` by a recent failure.
pub open spec fn held_back(retry_not_before: Option<u64>, now: u64) -> bool {
    retry_not_before matches Some(t) && now < t
}

/// The answer to a request at `now`, and whether it starts a refresh. A
/// fresh report is served and nothing starts. Otherwise a refresh starts
/// unless one is in flight or a recent failure holds it back; the answer is
/// the stale report if there is one, else `RefreshFailed` when held back and
/// `Refreshing` otherwise.
pub open spec fn answer<T>(
    cached: Option<CachedRetention<T>>,
    in_flight: bool,
    retry_not_before: Option<u64>,
    now: u64,
) -> (RetentionSnapshot, bool) {
    if is_fresh(cached, now) {
        (
            RetentionSnapshot::Fresh {
                cache_age_nanos: age_at(now, cached->0.completed_at),
                generated_at_ms: cached->0.completed_at_ms,
            },
            false,
        )
    } else {
        let spawn = !in_flight && !held_back(retry_not_before, now);
        let shown = match stale_answer(cached, now) {
            Some(s) => s,
            None => if !in_flight && held_back(retry_not_before, now) {
                RetentionSnapshot::RefreshFailed
            } else {
                RetentionSnapshot::Refreshing
            },
        };
        (shown, spawn)
    }
}

impl<T> RetentionRuntime<T> {
    pub closed spec fn cached(&self) -> Option<CachedRetention<T>> {
        self.cached
    }

    pub closed spec fn in_flight(&self) -> bool {
        self.in_flight
    }

    pub closed spec fn retry_not_before(&self) -> Option<u64> {
        self.retry_not_before
    }

    pub closed spec fn started(&self) -> nat {
        self.started as nat
    }

    pub closed spec fn running(&self) -> nat {
        self.running as nat
    }

    /// An empty runtime: nothing cached, nothing running.
    pub fn new() -> (r: Self)
        ensures
            r.cached() is None,
            !r.in_flight(),
            r.retry_not_before() is None,
            r.started() == 0,
            r.running() == 0,
    {
        RetentionRuntime {
            cached: None,
            in_flight: false,
            retry_not_before: None,
            started: 0,
            running: 0,
        }
    }

    /// The counters.
    pub fn stats(&self) -> (r: ContractRetentionRuntimeStats)
        ensures
            r.started == self.started(),
            r.running == self.running(),
    {
        ContractRetentionRuntimeStats { started: self.started, running: self.running }
    }

    /// The cached report, if any.
    pub fn cached_value(&self) -> (r: Option<&T>)
        ensures
            r is None <==> self.cached() is None,
            r matches Some(v) ==> *v == self.cached()->0.value,
    {
        match &self.cached {
            Some(c) => Some(&c.value),
            None => None,
        }
    }

    /// A request at `now`; see `answer`. Returns the answer and whether the
    /// caller is to run a refresh, which then counts as started and in flight.
    pub fn get_or_spawn(&mut self, now: u64) -> (r: (RetentionSnapshot, bool))
        requires
            old(self).started() < usize::MAX,
        ensures
            r == answer(old(self).cached(), old(self).in_flight(), old(self).retry_not_before(), now),
            final(self).cached() == old(self).cached(),
            final(self).retry_not_before() == old(self).retry_not_before(),
            final(self).running() == old(self).running(),
            final(self).in_flight() == (old(self).in_flight() || r.1),
            final(self).started() == old(self).started() + if r.1 {
                1nat
            } else {
                0nat
            },
    {
        let mut stale: Option<RetentionSnapshot> = None;
        match &self.cached {
            Some(c) => {
                let a: u64 = if now >= c.completed_at {
                    now - c.completed_at
                } else {
                    0
                };
                if a <= RETENTION_FRESH_TTL_NANOS {
                    return (
                        RetentionSnapshot::Fresh {
                            cache_age_nanos: a,
                            generated_at_ms: c.completed_at_ms,
                        },
                        false,
                    );
                }
                if a <= RETENTION_STALE_TTL_NANOS {
                    stale =
                    Some(
                        RetentionSnapshot::Stale { cache_age_nanos: a, generated_at_ms: c.completed_at_ms },
                    );
                }
            },
            None => {},
        }
        if self.in_flight {
            return match stale {
                Some(s) => (s, false),
                None => (RetentionSnapshot::Refreshing, false),
            };
        }
        let held: bool = match self.retry_not_before {
            Some(t) => now < t,
            None => false,
        };
        if held {
            return match stale {
                Some(s) => (s, false),
                None => (RetentionSnapshot::RefreshFailed, false),
            };
        }
        self.in_flight = true;
        self.started = self.started + 1;
        match stale {
            Some(s) => (s, true),
            None => (RetentionSnapshot::Refreshing, true),
        }
    }

    /// A refresh begins to run.
    pub fn refresh_running(&mut self)
        requires
            old(self).running() < usize::MAX,
        ensures
            final(self).running() == old(self).running() + 1,
            final(self).cached() == old(self).cached(),
            final(self).in_flight() == old(self).in_flight(),
            final(self).retry_not_before() == old(self).retry_not_before(),
            final(self).started() == old(self).started(),
    {
        self.running = self.running + 1;
    }

    /// A refresh ends at `now` (monotonic) and `now_ms` (wall) with its
    /// report, or with `None` when it failed. A report replaces the cache
    /// and clears the hold; a failure keeps the cache and holds refreshes
    /// back for the retry delay (no hold where that time does not fit the
    /// clock).
    pub fn finish_refresh(&mut self, result: Option<T>, now: u64, now_ms: i64)
        requires
            old(self).running() > 0,
        ensures
            final(self).running() == old(self).running() - 1,
            !final(self).in_flight(),
            final(self).started() == old(self).started(),
            match result {
                Some(v) => {
                    &&& final(self).cached() == Some(
                        CachedRetention { value: v, completed_at: now, completed_at_ms: now_ms },
                    )
                    &&& final(self).retry_not_before() is None
                },
                None => {
                    &&& final(self).cached() == old(self).cached()
                    &&& final(self).retry_not_before() == if now + RETENTION_RETRY_DELAY_NANOS
                        <= u64::MAX {
                        Some((now + RETENTION_RETRY_DELAY_NANOS) as u64)
                    } else {
                        None::<u64>
                    }
                },
            },
    {
        self.running = self.running - 1;
        self.in_flight = false;
        match result {
            Some(v) => {
                self.cached = Some(
                    CachedRetention { value: v, completed_at: now, completed_at_ms: now_ms },
                );
                self.retry_not_before = None;
            },
            None => {
                self.retry_not_before = now.checked_add(RETENTION_RETRY_DELAY_NANOS);
            },
        }
    }
}

/// How long a client is asked to wait before asking again while a report
/// is being made.
pub const RETENTION_RETRY_AFTER_MS: u64 = 2_000;

/// The status part of the retention report: the tables and how fresh
/// they are.
pub struct RetentionStatus {
    pub tables: ContractRetentionTables,
    pub data_state: String,
    pub degraded: bool,
    pub last_known_data_available: bool,
    pub generated_at: Option<i64>,
    pub cache_age_sec: Option<u64>,
    pub retry_after_ms: Option<u64>,
    pub error_code: Option<String>,
}

pub open spec fn opt_text(o: Option<String>) -> Option<Seq<char>> {
    match o {
        Some(s) => Some(s@),
        None => None,
    }
}

/// A status without tables: every figure unknown for `reason`, degraded,
/// with no data to show.
pub open spec fn unavailable_status(
    r: RetentionStatus,
    reason: Seq<char>,
    retry_after_ms: Option<u64>,
    error_code: Seq<char>,
) -> bool {
    &&& unknown_table(r.tables.contract_flow_1s, reason)
    &&& unknown_table(r.tables.contract_whale_signals, reason)
    &&& unknown_table(r.tables.main_force_events, reason)
    &&& r.data_state@ == "degraded"@
    &&& r.degraded
    &&& !r.last_known_data_available
    &&& r.generated_at is None
    &&& r.cache_age_sec is None
    &&& r.retry_after_ms == retry_after_ms
    &&& opt_text(r.error_code) == Some(error_code)
}

/// The status of the retention report for the runtime's answer
/// (`None` when the store cannot be reached), with the cached tables. A
/// fresh report is served as it is; a stale one too, degraded, asking the
/// client to retry; with no report the tables are unknown, for the reason
/// the answer gives.
pub fn retention_status(
    snapshot: Option<RetentionSnapshot>,
    cached: Option<ContractRetentionTables>,
) -> (r: RetentionStatus)
    requires
        snapshot is Some && (snapshot->0 is Fresh || snapshot->0 is Stale) ==> cached is Some,
    ensures
        match snapshot {
            Some(RetentionSnapshot::Fresh { cache_age_nanos, generated_at_ms }) => {
                &&& r.tables == cached->0
                &&& r.data_state@ == "fresh"@
                &&& !r.degraded
                &&& r.last_known_data_available
                &&& r.generated_at == Some(generated_at_ms)
                &&& r.cache_age_sec == Some((cache_age_nanos / 1_000_000_000) as u64)
                &&& r.retry_after_ms is None
                &&& r.error_code is None
            },
            Some(RetentionSnapshot::Stale { cache_age_nanos, generated_at_ms }) => {
                &&& r.tables == cached->0
                &&& r.data_state@ == "stale"@
                &&& r.degraded
                &&& r.last_known_data_available
                &&& r.generated_at == Some(generated_at_ms)
                &&& r.cache_age_sec == Some((cache_age_nanos / 1_000_000_000) as u64)
                &&& r.retry_after_ms == Some(RETENTION_RETRY_AFTER_MS)
                &&& opt_text(r.error_code) == Some("contract_retention_refresh_in_progress"@)
            },
            Some(RetentionSnapshot::Refreshing) => unavailable_status(
                r,
                "refresh_in_progress"@,
                Some(RETENTION_RETRY_AFTER_MS),
                "contract_retention_refresh_in_progress"@,
            ),
            Some(RetentionSnapshot::RefreshFailed) => unavailable_status(
                r,
                "refresh_failed"@,
                Some(RETENTION_RETRY_AFTER_MS),
                "contract_retention_refresh_failed"@,
            ),
            None => unavailable_status(
                r,
                "query_failed"@,
                None,
                "contract_retention_store_unavailable"@,
            ),
        },
{
    match snapshot {
        Some(RetentionSnapshot::Fresh { cache_age_nanos, generated_at_ms }) => {
            let tables = match cached {
                Some(t) => t,
                None => unavailable_retention_tables("query_failed"),
            };
            RetentionStatus {
                tables,
                data_state: String::from_str("fresh"),
                degraded: false,
                last_known_data_available: true,
                generated_at: Some(generated_at_ms),
                cache_age_sec: Some(cache_age_nanos / 1_000_000_000),
                retry_after_ms: None,
                error_code: None,
            }
        },
        Some(RetentionSnapshot::Stale { cache_age_nanos, generated_at_ms }) => {
            let tables = match cached {
                Some(t) => t,
                None => unavailable_retention_tables("query_failed"),
            };
            RetentionStatus {
                tables,
                data_state: String::from_str("stale"),
                degraded: true,
                last_known_data_available: true,
                generated_at: Some(generated_at_ms),
                cache_age_sec: Some(cache_age_nanos / 1_000_000_000),
                retry_after_ms: Some(RETENTION_RETRY_AFTER_MS),
                error_code: Some(String::from_str("contract_retention_refresh_in_progress")),
            }
        },
        Some(RetentionSnapshot::Refreshing) => RetentionStatus {
            tables: unavailable_retention_tables("refresh_in_progress"),
            data_state: String::from_str("degraded"),
            degraded: true,
            last_known_data_available: false,
            generated_at: None,
            cache_age_sec: None,
            retry_after_ms: Some(RETENTION_RETRY_AFTER_MS),
            error_code: Some(String::from_str("contract_retention_refresh_in_progress")),
        },
        Some(RetentionSnapshot::RefreshFailed) => RetentionStatus {
            tables: unavailable_retention_tables("refresh_failed"),
            data_state: String::from_str("degraded"),
            degraded: true,
            last_known_data_available: false,
            generated_at: None,
            cache_age_sec: None,
            retry_after_ms: Some(RETENTION_RETRY_AFTER_MS),
            error_code: Some(String::from_str("contract_retention_refresh_failed")),
        },
        None => RetentionStatus {
            tables: unavailable_retention_tables("query_failed"),
            data_state: String::from_str("degraded"),
            degraded: true,
            last_known_data_available: false,
            generated_at: None,
            cache_age_sec: None,
            retry_after_ms: None,
            error_code: Some(String::from_str("contract_retention_store_unavailable")),
        },
    }
}

/// Milliseconds in a day.
pub const DAY_MS: i64 = 86_400_000;

/// The time before which rows count as older than a retention of `days`
/// (at least one day) at `now_ms`, the subtraction saturating.
pub fn retention_cutoff(now_ms: i64, days: i64) -> (r: i64)
    requires
        days <= i64::MAX / DAY_MS,
    ensures
        r == sat_sub(now_ms as int, (if days < 1 { 1 } else { days }) * DAY_MS),
{
    let d: i64 = if days < 1 {
        1
    } else {
        days
    };
    saturating_sub_i64(now_ms, d * DAY_MS)
}

/// While a refresh is in flight, no request starts another.
pub proof fn law_one_refresh_at_a_time<T>(
    cached: Option<CachedRetention<T>>,
    retry_not_before: Option<u64>,
    now: u64,
)
    ensures
        !answer(cached, true, retry_not_before, now).1,
{
}

/// A fresh report is served as it is and starts no refresh.
pub proof fn law_fresh_report_served_without_refresh<T>(
    c: CachedRetention<T>,
    in_flight: bool,
    retry_not_before: Option<u64>,
    now: u64,
)
    requires
        age_at(now, c.completed_at) <= RETENTION_FRESH_TTL_NANOS,
    ensures
        answer(Some(c), in_flight, retry_not_before, now) == (
            RetentionSnapshot::Fresh {
                cache_age_nanos: age_at(now, c.completed_at),
                generated_at_ms: c.completed_at_ms,
            },
            false,
        ),
{
}

/// What a refresh delivered at `now` is served fresh, of age zero, to a
/// request at the same instant.
pub proof fn law_refreshed_report_is_fresh<T>(value: T, now: u64, now_ms: i64)
    ensures
        answer(
            Some(CachedRetention { value, completed_at: now, completed_at_ms: now_ms }),
            false,
            None,
            now,
        ) == (RetentionSnapshot::Fresh { cache_age_nanos: 0, generated_at_ms: now_ms }, false),
{
}

/// After a failed refresh with nothing cached, a request within the retry
/// delay is answered `RefreshFailed` and starts nothing.
pub proof fn law_failure_holds_back_refresh(failed_at: u64, now: u64)
    requires
        failed_at + RETENTION_RETRY_DELAY_NANOS <= u64::MAX,
        now < failed_at + RETENTION_RETRY_DELAY_NANOS,
    ensures
        answer::<()>(
            None,
            false,
            Some((failed_at + RETENTION_RETRY_DELAY_NANOS) as u64),
            now,
        ) == (RetentionSnapshot::RefreshFailed, false),
{
}

} // verus!
