//! Pages of contract events and of final events, assembled from the rows a
//! history query returned (one more than the page holds, to tell whether
//! another page follows) and from the events projected out of them.
use vstd::prelude::*;

use crate::alerts::opt_string_view;
use crate::events::{
    duration_secs_i64, lag_of, serve_final_events_v2_page, FinalEventsV2Response,
    FINAL_EVENTS_V2_CACHE_TTL_SEC,
};
use crate::projection::{
    projection_type_mismatch, reason_code, ProjectionOutcome, ProjectionUnavailable,
    ProjectionUnavailableReason, RETRY_AFTER_MS,
};
use crate::orderflow::{sat_sub, saturating_sub_i64};
use crate::text::{chars_of, eq_ignore_case_str, lower};
use crate::timeline::{build_canonical_timeline_meta, lag_secs, CanonicalTimelineMeta};
use crate::whale_query::{cursor_token, encode_contract_history_cursor, ContractWhaleSeverity};
use crate::text::{eq_str, trim_chars, upper, upper_chars, trim};

verus! {

/// A row of a history query, as far as paging reads it.
pub struct SignalRef {
    pub ts: i64,
    pub id: String,
}

/// An event projected from a row, with its status and visibility.
pub struct ProjectedEvent<E> {
    pub event: E,
    pub status: String,
    pub is_visible: bool,
}

/// What the rows of a query say of the page: whether more follow, the
/// cursor of the next page, and the times of its last and first rows.
pub struct PageWindow {
    pub has_more: bool,
    pub next_cursor: Option<String>,
    pub last_event_ts: Option<i64>,
    pub max_event_ts: Option<i64>,
}

pub open spec fn kept(n: int, limit: int) -> int {
    if n < limit {
        n
    } else {
        limit
    }
}

pub open spec fn window_ok(w: PageWindow, rows: Seq<SignalRef>, limit: int) -> bool {
    let k = kept(rows.len() as int, limit);
    &&& w.has_more == (rows.len() > limit)
    &&& w.last_event_ts == if k > 0 {
        Some(rows[k - 1].ts)
    } else {
        None
    }
    &&& w.max_event_ts == if k > 0 {
        Some(rows[0].ts)
    } else {
        None
    }
    &&& match w.next_cursor {
        Some(c) => rows.len() > limit && k > 0 && c@ == cursor_token(
            rows[k - 1].ts as int,
            rows[k - 1].id@,
        ),
        None => !(rows.len() > limit && k > 0),
    }
}

/// The window of a page of at most `limit` rows out of `rows`.
pub fn page_window(rows: &Vec<SignalRef>, limit: usize) -> (r: PageWindow)
    requires
        forall|i: int| 0 <= i < rows@.len() ==> (#[trigger] rows@[i]).id@.len() <= usize::MAX / 16,
    ensures
        window_ok(r, rows@, limit as int),
{
    let k: usize = if rows.len() < limit {
        rows.len()
    } else {
        limit
    };
    let has_more = rows.len() > limit;
    let next_cursor = if has_more && k > 0 {
        Some(encode_contract_history_cursor(rows[k - 1].ts, rows[k - 1].id.as_str()))
    } else {
        None
    };
    PageWindow {
        has_more,
        next_cursor,
        last_event_ts: if k > 0 {
            Some(rows[k - 1].ts)
        } else {
            None
        },
        max_event_ts: if k > 0 {
            Some(rows[0].ts)
        } else {
            None
        },
    }
}

/// An event passes a status filter: "active" and "closed" select that
/// status ignoring case; any other filter, or none, passes everything.
pub open spec fn passes(filter: Option<Seq<char>>, status: Seq<char>) -> bool {
    match filter {
        Some(f) => if f == "active"@ {
            lower(status) == "active"@
        } else if f == "closed"@ {
            lower(status) == "closed"@
        } else {
            true
        },
        None => true,
    }
}

pub open spec fn opt_str_view(o: Option<&str>) -> Option<Seq<char>> {
    match o {
        Some(s) => Some(s@),
        None => None,
    }
}

/// The visible events passing the filter, closed or not.
pub open spec fn split_of<E>(cs: Seq<ProjectedEvent<E>>, filter: Option<Seq<char>>, closed: bool) -> Seq<E>
    decreases cs.len(),
{
    if cs.len() == 0 {
        Seq::empty()
    } else {
        let rest = split_of(cs.drop_last(), filter, closed);
        let c = cs.last();
        if c.is_visible && passes(filter, c.status@) && (lower(c.status@) == "closed"@) == closed {
            rest.push(c.event)
        } else {
            rest
        }
    }
}

/// The events shown on a contract-events page: those passing the filter,
/// and hidden ones only when asked for.
pub open spec fn shown_of<E>(cs: Seq<ProjectedEvent<E>>, filter: Option<Seq<char>>, include_hidden: bool) -> Seq<E>
    decreases cs.len(),
{
    if cs.len() == 0 {
        Seq::empty()
    } else {
        let rest = shown_of(cs.drop_last(), filter, include_hidden);
        let c = cs.last();
        if passes(filter, c.status@) && (include_hidden || c.is_visible) {
            rest.push(c.event)
        } else {
            rest
        }
    }
}

/// Splits the visible events passing the filter into active and closed.
fn split_events<E>(candidates: Vec<ProjectedEvent<E>>, filter: Option<&str>) -> (r: (Vec<E>, Vec<E>))
    ensures
        r.0@ == split_of(candidates@, opt_str_view(filter), false),
        r.1@ == split_of(candidates@, opt_str_view(filter), true),
{
    let ghost all = candidates@;
    let mut rest = candidates;
    let mut active: Vec<E> = Vec::new();
    let mut closed: Vec<E> = Vec::new();
    let mut k: usize = 0;
    let n: usize = rest.len();
    proof {
        assert(all.len() == n);
        assert(all.take(0) =~= Seq::<ProjectedEvent<E>>::empty());
        assert(all.skip(0) =~= all);
    }
    while rest.len() > 0
        invariant
            k <= all.len() <= usize::MAX,
            rest@ == all.skip(k as int),
            active@ == split_of(all.take(k as int), opt_str_view(filter), false),
            closed@ == split_of(all.take(k as int), opt_str_view(filter), true),
        decreases rest.len(),
    {
        let c = rest.remove(0);
        proof {
            assert(c == all[k as int]);
            assert(rest@ =~= all.skip(k + 1));
            assert(all.take(k + 1).drop_last() =~= all.take(k as int));
            assert(all.take(k + 1).last() == c);
        }
        let ok = c.is_visible && crate::events::status_matches(filter, c.status.as_str());
        let is_closed = eq_ignore_case_str(&chars_of(c.status.as_str()), "closed");
        proof {
            reveal_strlit("closed");
            reveal_strlit("active");
            assert(lower("closed"@) =~= "closed"@);
        }
        if ok {
            if is_closed {
                closed.push(c.event);
            } else {
                active.push(c.event);
            }
        }
        k = k + 1;
    }
    proof {
        assert(all.take(k as int) =~= all);
    }
    (active, closed)
}

/// The events shown on a contract-events page.
fn shown_events<E>(candidates: Vec<ProjectedEvent<E>>, filter: Option<&str>, include_hidden: bool) -> (r:
    Vec<E>)
    ensures
        r@ == shown_of(candidates@, opt_str_view(filter), include_hidden),
{
    let ghost all = candidates@;
    let mut rest = candidates;
    let mut shown: Vec<E> = Vec::new();
    let mut k: usize = 0;
    let n: usize = rest.len();
    proof {
        assert(all.len() == n);
        assert(all.take(0) =~= Seq::<ProjectedEvent<E>>::empty());
        assert(all.skip(0) =~= all);
    }
    while rest.len() > 0
        invariant
            k <= all.len() <= usize::MAX,
            rest@ == all.skip(k as int),
            shown@ == shown_of(all.take(k as int), opt_str_view(filter), include_hidden),
        decreases rest.len(),
    {
        let c = rest.remove(0);
        proof {
            assert(c == all[k as int]);
            assert(rest@ =~= all.skip(k + 1));
            assert(all.take(k + 1).drop_last() =~= all.take(k as int));
            assert(all.take(k + 1).last() == c);
            reveal_strlit("closed");
            reveal_strlit("active");
        }
        if crate::events::status_matches(filter, c.status.as_str()) && (include_hidden
            || c.is_visible) {
            shown.push(c.event);
        }
        k = k + 1;
    }
    proof {
        assert(all.take(k as int) =~= all);
    }
    shown
}

/// The final-events page at `now` of at most `limit` of `rows` (the query
/// asked for one more), with the projected events split into active and
/// closed: fresh when it has a newest event, else empty.
pub fn final_events_v2_page<E>(
    limit: usize,
    range: String,
    now: i64,
    rows: &Vec<SignalRef>,
    candidates: Vec<ProjectedEvent<E>>,
    status_filter: Option<&str>,
) -> (r: FinalEventsV2Response<E>)
    requires
        forall|i: int| 0 <= i < rows@.len() ==> (#[trigger] rows@[i]).id@.len() <= usize::MAX / 16,
    ensures
        window_ok(
            PageWindow {
                has_more: r.has_more,
                next_cursor: r.next_cursor,
                last_event_ts: r.last_event_ts,
                max_event_ts: r.max_event_ts,
            },
            rows@,
            limit as int,
        ),
        r.active@ == split_of(candidates@, opt_str_view(status_filter), false),
        r.closed@ == split_of(candidates@, opt_str_view(status_filter), true),
        r.data_state@ == if r.max_event_ts is Some {
            "fresh"@
        } else {
            "empty"@
        },
        !r.degraded,
        r.error_code is None,
        r.last_known_data_available == r.max_event_ts is Some,
        r.limit == limit,
        r.range == range,
        r.server_time == now,
        r.generated_at == now,
        r.cache_age_sec == 0,
        r.cache_ttl_sec == FINAL_EVENTS_V2_CACHE_TTL_SEC,
        r.projection_lag_sec == lag_of(r.max_event_ts, now),
        r.timeline.source@ == "contract_whale_signals"@,
        r.timeline.event_ts == r.max_event_ts,
        r.timeline.persisted_ts == r.max_event_ts,
        r.timeline.processed_ts == Some(now),
        r.timeline.served_ts == now,
        r.timeline.timeline_lag_sec == lag_secs(r.max_event_ts, now),
{
    let w = page_window(rows, limit);
    let (active, closed) = split_events(candidates, status_filter);
    let lag: i64 = match w.max_event_ts {
        Some(ts) => {
            let d = saturating_sub_i64(now, ts);
            if d < 0 {
                0
            } else {
                d / 1000
            }
        },
        None => 0,
    };
    let fresh = w.max_event_ts.is_some();
    let timeline = build_canonical_timeline_meta(
        String::from_str("contract_whale_signals"),
        w.max_event_ts,
        w.max_event_ts,
        Some(now),
        now,
    );
    FinalEventsV2Response {
        active,
        closed,
        data_state: String::from_str(
            if fresh {
                "fresh"
            } else {
                "empty"
            },
        ),
        degraded: false,
        error_code: None,
        last_known_data_available: fresh,
        next_cursor: w.next_cursor,
        has_more: w.has_more,
        limit,
        range,
        server_time: now,
        last_event_ts: w.last_event_ts,
        max_event_ts: w.max_event_ts,
        generated_at: now,
        cache_age_sec: 0,
        cache_ttl_sec: FINAL_EVENTS_V2_CACHE_TTL_SEC,
        projection_lag_sec: lag,
        timeline,
    }
}

/// A page of contract events.
pub struct ContractEventPage<I> {
    pub items: Vec<I>,
    pub data_state: String,
    pub degraded: bool,
    pub error_code: Option<String>,
    pub last_known_data_available: bool,
    pub next_cursor: Option<String>,
    pub has_more: bool,
    pub limit: usize,
    pub range: String,
    pub server_time: i64,
    pub last_event_ts: Option<i64>,
    pub max_event_ts: Option<i64>,
    pub max_persisted_at: Option<i64>,
    pub history_lag_sec: i64,
    pub latest_lag_sec: i64,
    pub cache_age_sec: i64,
    pub cache_ttl_sec: i64,
    pub timeline: CanonicalTimelineMeta,
}

/// `max(a - b, 0) / 1000`, the subtraction saturating.
pub open spec fn secs_after(a: i64, b: i64) -> int {
    let d = sat_sub(a as int, b as int);
    if d < 0 {
        0
    } else {
        d / 1000
    }
}

pub(crate) fn secs_after_exec(a: i64, b: i64) -> (r: i64)
    ensures
        r == secs_after(a, b),
{
    let d = saturating_sub_i64(a, b);
    if d < 0 {
        0
    } else {
        d / 1000
    }
}

/// The contract-events page at `now` of at most `limit` of `rows`: the
/// shown events, fresh unless the query returned nothing; the history lag
/// from its newest event, the cache age from the newest persisted row (else
/// the history lag), and how far the latest stored signal (`latest_ts`) is
/// ahead of the page.
pub fn contract_event_page<I>(
    limit: usize,
    range: String,
    now: i64,
    rows: &Vec<SignalRef>,
    candidates: Vec<ProjectedEvent<I>>,
    status_filter: Option<&str>,
    include_hidden: bool,
    max_persisted_at: Option<i64>,
    latest_ts: Option<i64>,
) -> (r: ContractEventPage<I>)
    requires
        forall|i: int| 0 <= i < rows@.len() ==> (#[trigger] rows@[i]).id@.len() <= usize::MAX / 16,
    ensures
        window_ok(
            PageWindow {
                has_more: r.has_more,
                next_cursor: r.next_cursor,
                last_event_ts: r.last_event_ts,
                max_event_ts: r.max_event_ts,
            },
            rows@,
            limit as int,
        ),
        r.items@ == shown_of(candidates@, opt_str_view(status_filter), include_hidden),
        r.data_state@ == if rows@.len() == 0 {
            "empty"@
        } else {
            "fresh"@
        },
        !r.degraded,
        r.error_code is None,
        r.last_known_data_available == (rows@.len() > 0),
        r.limit == limit,
        r.range == range,
        r.server_time == now,
        r.max_persisted_at == max_persisted_at,
        r.history_lag_sec == match r.max_event_ts {
            Some(ts) => secs_after(now, ts),
            None => 0,
        },
        r.cache_age_sec == match max_persisted_at {
            Some(ts) => secs_after(now, ts),
            None => r.history_lag_sec as int,
        },
        r.latest_lag_sec == match latest_ts {
            Some(l) => secs_after(
                l,
                match r.max_event_ts {
                    Some(m) => m,
                    None => l,
                },
            ),
            None => 0,
        },
        r.cache_ttl_sec == 5,
        r.timeline.source@ == "contract_whale_signals"@,
        r.timeline.event_ts == r.max_event_ts,
        r.timeline.persisted_ts == max_persisted_at,
        r.timeline.processed_ts == match max_persisted_at {
            Some(p) => Some(p),
            None => r.max_event_ts,
        },
        r.timeline.served_ts == now,
        r.timeline.timeline_lag_sec == lag_secs(r.max_event_ts, now),
{
    let raw_count = rows.len();
    let w = page_window(rows, limit);
    let history_lag: i64 = match w.max_event_ts {
        Some(ts) => secs_after_exec(now, ts),
        None => 0,
    };
    let cache_age: i64 = match max_persisted_at {
        Some(ts) => secs_after_exec(now, ts),
        None => history_lag,
    };
    let latest_lag: i64 = match latest_ts {
        Some(l) => secs_after_exec(
            l,
            match w.max_event_ts {
                Some(m) => m,
                None => l,
            },
        ),
        None => 0,
    };
    let items = shown_events(candidates, status_filter, include_hidden);
    let processed = match max_persisted_at {
        Some(p) => Some(p),
        None => w.max_event_ts,
    };
    let timeline = build_canonical_timeline_meta(
        String::from_str("contract_whale_signals"),
        w.max_event_ts,
        max_persisted_at,
        processed,
        now,
    );
    ContractEventPage {
        items,
        data_state: String::from_str(
            if raw_count == 0 {
                "empty"
            } else {
                "fresh"
            },
        ),
        degraded: false,
        error_code: None,
        last_known_data_available: raw_count > 0,
        next_cursor: w.next_cursor,
        has_more: w.has_more,
        limit,
        range,
        server_time: now,
        last_event_ts: w.last_event_ts,
        max_event_ts: w.max_event_ts,
        max_persisted_at,
        history_lag_sec: history_lag,
        latest_lag_sec: latest_lag,
        cache_age_sec: cache_age,
        cache_ttl_sec: 5,
        timeline,
    }
}

/// Serves a cached contract-event page at `served_at`, `cache_age_sec`
/// after it was made: the serving times and the cache age and ttl are set;
/// a stale page is marked degraded with the reason's code and keeps data
/// when it has items; a fresh one is marked not degraded.
pub fn serve_contract_event_page<I>(
    page: ContractEventPage<I>,
    cache_age_sec: i64,
    served_at: i64,
    stale_reason: Option<ProjectionUnavailableReason>,
) -> (r: ContractEventPage<I>)
    ensures
        r.server_time == served_at,
        r.cache_age_sec == cache_age_sec,
        r.cache_ttl_sec == FINAL_EVENTS_V2_CACHE_TTL_SEC,
        r.timeline.served_ts == served_at,
        r.timeline.source == page.timeline.source,
        r.timeline.event_ts == page.timeline.event_ts,
        r.timeline.processed_ts == page.timeline.processed_ts,
        r.timeline.persisted_ts == page.timeline.persisted_ts,
        r.timeline.timeline_lag_sec == page.timeline.timeline_lag_sec,
        r.items == page.items,
        r.next_cursor == page.next_cursor,
        r.has_more == page.has_more,
        r.limit == page.limit,
        r.range == page.range,
        r.last_event_ts == page.last_event_ts,
        r.max_event_ts == page.max_event_ts,
        r.max_persisted_at == page.max_persisted_at,
        r.history_lag_sec == page.history_lag_sec,
        r.latest_lag_sec == page.latest_lag_sec,
        match stale_reason {
            Some(reason) => {
                &&& r.data_state@ == "stale"@
                &&& r.degraded
                &&& opt_string_view(r.error_code) == Some(reason_code(reason))
                &&& r.last_known_data_available == (page.items@.len() > 0)
            },
            None => {
                &&& r.data_state == page.data_state
                &&& !r.degraded
                &&& r.error_code is None
                &&& r.last_known_data_available == page.last_known_data_available
            },
        },
{
    let mut page = page;
    page.server_time = served_at;
    page.cache_age_sec = cache_age_sec;
    page.cache_ttl_sec = FINAL_EVENTS_V2_CACHE_TTL_SEC;
    page.timeline.served_ts = served_at;
    match stale_reason {
        Some(reason) => {
            page.data_state = String::from_str("stale");
            page.degraded = true;
            page.error_code = Some(String::from_str(reason.error_code()));
            page.last_known_data_available = page.items.len() > 0;
        },
        None => {
            page.degraded = false;
            page.error_code = None;
        },
    }
    page
}

/// What a contract-event projection holds: a contract-event page or a
/// final-events page.
pub enum ContractEventProjectionValue<I, E> {
    ContractEvents(ContractEventPage<I>),
    FinalEventsV2(FinalEventsV2Response<E>),
}

/// The cached value of an outcome, its age in whole seconds, and the
/// stale reason when it is stale.
pub open spec fn outcome_parts<T>(outcome: ProjectionOutcome<T>) -> (T, int, Option<
    ProjectionUnavailableReason,
>) {
    match outcome {
        ProjectionOutcome::Fresh { value, cache_age_nanos, .. } => (
            value,
            (cache_age_nanos / 1_000_000_000) as int,
            None,
        ),
        ProjectionOutcome::Stale { value, cache_age_nanos, reason, .. } => (
            value,
            (cache_age_nanos / 1_000_000_000) as int,
            Some(reason),
        ),
    }
}

fn split_outcome<T>(outcome: ProjectionOutcome<T>) -> (r: (T, i64, Option<ProjectionUnavailableReason>))
    ensures
        r.0 == outcome_parts(outcome).0,
        r.1 == outcome_parts(outcome).1,
        r.2 == outcome_parts(outcome).2,
{
    match outcome {
        ProjectionOutcome::Fresh { value, cache_age_nanos, .. } => (
            value,
            duration_secs_i64(cache_age_nanos / 1_000_000_000),
            None,
        ),
        ProjectionOutcome::Stale { value, cache_age_nanos, reason, .. } => (
            value,
            duration_secs_i64(cache_age_nanos / 1_000_000_000),
            Some(reason),
        ),
    }
}

/// The contract-event page an outcome serves at `served_at` (see
/// `serve_contract_event_page`); a final-events value is refused as a
/// failed projection.
pub fn contract_event_page_from_outcome<I, E>(
    outcome: ProjectionOutcome<ContractEventProjectionValue<I, E>>,
    served_at: i64,
) -> (r: Result<ContractEventPage<I>, ProjectionUnavailable>)
    ensures
        ({
            let (value, age, reason) = outcome_parts(outcome);
            match value {
                ContractEventProjectionValue::ContractEvents(page) => r matches Ok(p) && {
                    &&& p.server_time == served_at
                    &&& p.cache_age_sec == age
                    &&& p.items == page.items
                    &&& p.max_event_ts == page.max_event_ts
                    &&& p.degraded == (reason is Some)
                    &&& match reason {
                        Some(why) => opt_string_view(p.error_code) == Some(reason_code(why)),
                        None => p.error_code is None,
                    }
                },
                ContractEventProjectionValue::FinalEventsV2(_) => r matches Err(e) && e.reason
                    == ProjectionUnavailableReason::Failed && e.retry_after_ms == RETRY_AFTER_MS,
            }
        }),
{
    let (value, age, reason) = split_outcome(outcome);
    match value {
        ContractEventProjectionValue::ContractEvents(page) => Ok(
            serve_contract_event_page(page, age, served_at, reason),
        ),
        ContractEventProjectionValue::FinalEventsV2(_) => Err(projection_type_mismatch()),
    }
}

/// The final-events page an outcome serves at `served_at` (see
/// `serve_final_events_v2_page`); a contract-event value is refused as a
/// failed projection.
pub fn final_events_v2_page_from_outcome<I, E>(
    outcome: ProjectionOutcome<ContractEventProjectionValue<I, E>>,
    served_at: i64,
) -> (r: Result<FinalEventsV2Response<E>, ProjectionUnavailable>)
    ensures
        ({
            let (value, age, reason) = outcome_parts(outcome);
            match value {
                ContractEventProjectionValue::FinalEventsV2(page) => r matches Ok(p) && {
                    &&& p.server_time == served_at
                    &&& p.cache_age_sec == age
                    &&& p.active == page.active
                    &&& p.closed == page.closed
                    &&& p.max_event_ts == page.max_event_ts
                    &&& p.projection_lag_sec == lag_of(page.max_event_ts, served_at)
                    &&& p.degraded == (reason is Some)
                    &&& match reason {
                        Some(why) => opt_string_view(p.error_code) == Some(reason_code(why)),
                        None => p.error_code is None,
                    }
                },
                ContractEventProjectionValue::ContractEvents(_) => r matches Err(e) && e.reason
                    == ProjectionUnavailableReason::Failed && e.retry_after_ms == RETRY_AFTER_MS,
            }
        }),
{
    let (value, age, reason) = split_outcome(outcome);
    match value {
        ContractEventProjectionValue::FinalEventsV2(page) => Ok(
            serve_final_events_v2_page(page, age, served_at, reason),
        ),
        ContractEventProjectionValue::ContractEvents(_) => Err(projection_type_mismatch()),
    }
}

/// The impact level of a signal as the retention rule reads it: trimmed
/// and upper-cased, none when blank.
pub open spec fn impact_of(level: Option<Seq<char>>) -> Option<Seq<char>> {
    match level {
        Some(l) => if trim(l).len() > 0 {
            Some(upper(trim(l)))
        } else {
            None
        },
        None => None,
    }
}

/// Why an event is kept by the retention cleanup: severity S, impact S,
/// impact A, or a net volume at the permanent threshold, in that order.
pub open spec fn retention_reason_of(
    severity: ContractWhaleSeverity,
    impact_level: Option<Seq<char>>,
    net_volume_at_threshold: bool,
) -> Option<Seq<char>> {
    let impact = impact_of(impact_level);
    if severity == ContractWhaleSeverity::S {
        Some("severity_s"@)
    } else if impact == Some("S"@) {
        Some("impact_s"@)
    } else if impact == Some("A"@) {
        Some("impact_a"@)
    } else if net_volume_at_threshold {
        Some("net_volume_ge_500_btc"@)
    } else {
        None
    }
}

/// Whether the retention cleanup keeps an event, and why; see
/// `retention_reason_of`. `net_volume_at_threshold` says whether the
/// event's net volume reaches the permanent threshold.
pub fn retention_protection(
    severity: ContractWhaleSeverity,
    impact_level: Option<&str>,
    net_volume_at_threshold: bool,
) -> (r: (bool, Option<String>))
    ensures
        r.0 == (retention_reason_of(severity, opt_str_view(impact_level), net_volume_at_threshold)
            is Some),
        opt_string_view(r.1) == retention_reason_of(
            severity,
            opt_str_view(impact_level),
            net_volume_at_threshold,
        ),
{
    proof {
        reveal_strlit("S");
        reveal_strlit("A");
        assert("S"@[0] != "A"@[0]);
    }
    let impact: Option<Vec<char>> = match impact_level {
        Some(l) => {
            let t = trim_chars(&chars_of(l));
            if t.len() > 0 {
                Some(upper_chars(&t))
            } else {
                None
            }
        },
        None => None,
    };
    let impact_s = match &impact {
        Some(v) => eq_str(v, "S"),
        None => false,
    };
    let impact_a = match &impact {
        Some(v) => eq_str(v, "A"),
        None => false,
    };
    let reason: Option<&str> = if severity == ContractWhaleSeverity::S {
        Some("severity_s")
    } else if impact_s {
        Some("impact_s")
    } else if impact_a {
        Some("impact_a")
    } else if net_volume_at_threshold {
        Some("net_volume_ge_500_btc")
    } else {
        None
    };
    match reason {
        Some(text) => (true, Some(String::from_str(text))),
        None => (false, None),
    }
}

/// A final-events page and a contract-event page without hidden events
/// over the same projection and status filter show the same number of
/// events: each visible event that passes the filter is either active or
/// closed.
pub proof fn law_final_split_matches_visible_page<E>(
    candidates: Seq<ProjectedEvent<E>>,
    filter: Option<Seq<char>>,
)
    ensures
        split_of(candidates, filter, false).len() + split_of(candidates, filter, true).len()
            == shown_of(candidates, filter, false).len(),
    decreases candidates.len(),
{
    if candidates.len() > 0 {
        law_final_split_matches_visible_page(candidates.drop_last(), filter);
    }
}

} // verus!
