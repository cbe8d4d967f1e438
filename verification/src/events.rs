//! The contract-event routes: their query checks, the serving of cached
//! final-event pages, and the debug and retention reports.
use vstd::prelude::*;

use crate::projection::{reason_code, ProjectionUnavailableReason};
use crate::query_parse::{opt_view, present, present_exec, RequestRejection};
use crate::text::{
    chars_of, eq_ignore_case_str, eq_str, lower, lower_chars, nat_decimal, string_of, u64_decimal,
};
use crate::timeline::CanonicalTimelineMeta;
use crate::whale_query::{
    bad_request, history_error, history_error_lim, limit_param, opt_string_view, parse_history_query_at, parse_limit,
    rejected_for, ContractWhaleQuery, ContractWhaleSeverity,
};

verus! {

/// How long a served final-events page may be cached, in seconds.
pub const FINAL_EVENTS_V2_CACHE_TTL_SEC: i64 = 30;

/// A page of final events, active and closed.
pub struct FinalEventsV2Response<E> {
    pub active: Vec<E>,
    pub closed: Vec<E>,
    pub data_state: String,
    pub degraded: bool,
    pub error_code: Option<String>,
    pub last_known_data_available: bool,
    pub next_cursor: Option<String>,
    pub has_more: bool,
    pub limit: usize,
    pub range: String,
    pub server_time: i64,
    pub last_event_ts: Option<i64>,
    pub max_event_ts: Option<i64>,
    pub generated_at: i64,
    pub cache_age_sec: i64,
    pub cache_ttl_sec: i64,
    pub projection_lag_sec: i64,
    pub timeline: CanonicalTimelineMeta,
}

/// `max(served - ts, 0) / 1000`, the subtraction saturating.
pub open spec fn lag_of(max_event_ts: Option<i64>, served_at: i64) -> int {
    match max_event_ts {
        Some(ts) => {
            let d = crate::orderflow::sat_sub(served_at as int, ts as int);
            if d < 0 {
                0
            } else {
                d / 1000
            }
        },
        None => 0,
    }
}

/// Serves a cached page at `served_at`, `cache_age_sec` after it was made:
/// the serving times, cache age and ttl and projection lag are set; a stale
/// page is marked degraded with the reason's code and keeps data when it
/// has events; a fresh one is marked not degraded.
pub fn serve_final_events_v2_page<E>(
    page: FinalEventsV2Response<E>,
    cache_age_sec: i64,
    served_at: i64,
    stale_reason: Option<ProjectionUnavailableReason>,
) -> (r: FinalEventsV2Response<E>)
    ensures
        r.server_time == served_at,
        r.cache_age_sec == cache_age_sec,
        r.cache_ttl_sec == FINAL_EVENTS_V2_CACHE_TTL_SEC,
        r.projection_lag_sec == lag_of(page.max_event_ts, served_at),
        r.timeline.served_ts == served_at,
        r.timeline.source == page.timeline.source,
        r.timeline.event_ts == page.timeline.event_ts,
        r.timeline.processed_ts == page.timeline.processed_ts,
        r.timeline.persisted_ts == page.timeline.persisted_ts,
        r.timeline.timeline_lag_sec == page.timeline.timeline_lag_sec,
        r.active == page.active,
        r.closed == page.closed,
        r.next_cursor == page.next_cursor,
        r.has_more == page.has_more,
        r.limit == page.limit,
        r.range == page.range,
        r.last_event_ts == page.last_event_ts,
        r.max_event_ts == page.max_event_ts,
        r.generated_at == page.generated_at,
        match stale_reason {
            Some(reason) => {
                &&& r.data_state@ == "stale"@
                &&& r.degraded
                &&& opt_string_view(r.error_code) == Some(reason_code(reason))
                &&& r.last_known_data_available == (page.active@.len() > 0 || page.closed@.len()
                    > 0)
            },
            None => {
                &&& r.data_state == page.data_state
                &&& !r.degraded
                &&& r.error_code is None
                &&& r.last_known_data_available == page.last_known_data_available
            },
        },
{
    let mut page = page;
    page.server_time = served_at;
    page.cache_age_sec = cache_age_sec;
    page.cache_ttl_sec = FINAL_EVENTS_V2_CACHE_TTL_SEC;
    page.projection_lag_sec = match page.max_event_ts {
        Some(ts) => {
            let d = crate::orderflow::saturating_sub_i64(served_at, ts);
            if d < 0 {
                0
            } else {
                d / 1000
            }
        },
        None => 0,
    };
    page.timeline.served_ts = served_at;
    match stale_reason {
        Some(reason) => {
            page.data_state = String::from_str("stale");
            page.degraded = true;
            page.error_code = Some(String::from_str(reason.error_code()));
            page.last_known_data_available = page.active.len() > 0 || page.closed.len() > 0;
        },
        None => {
            page.degraded = false;
            page.error_code = None;
        },
    }
    page
}

/// Whole seconds of a cache age, as an `i64`.
pub fn duration_secs_i64(secs: u64) -> (r: i64)
    ensures
        r == if secs > i64::MAX as u64 {
            i64::MAX as int
        } else {
            secs as int
        },
{
    if secs > i64::MAX as u64 {
        i64::MAX
    } else {
        secs as i64
    }
}

// ---------------------------------------------------------------------------
// Query checks
// ---------------------------------------------------------------------------

/// The page size asked for: absent or blank means `default`, a number is
/// clamped to `1..=max`.
pub fn parse_requested_limit(value: Option<&str>, default: usize, max: usize) -> (r: Result<
    usize,
    RequestRejection,
>)
    requires
        1 <= max,
    ensures
        match r {
            Ok(n) => limit_param(opt_view(value), default as int, max as int) == Ok::<
                int,
                Seq<char>,
            >(n as int),
            Err(e) => limit_param(opt_view(value), default as int, max as int) is Err
                && rejected_for(e, limit_param(opt_view(value), default as int, max as int)->Err_0),
        },
{
    parse_limit(value, default, max)
}

/// A strict flag: `true`/`1` or `false`/`0` exactly; absent or blank is off.
pub open spec fn strict_flag(v: Option<Seq<char>>) -> Option<bool> {
    match present(v) {
        None => Some(false),
        Some(s) => if s == "true"@ || s == "1"@ {
            Some(true)
        } else if s == "false"@ || s == "0"@ {
            Some(false)
        } else {
            None
        },
    }
}

fn parse_strict_flag(value: Option<&str>, reason: &str) -> (r: Result<bool, RequestRejection>)
    ensures
        match r {
            Ok(b) => strict_flag(opt_view(value)) == Some(b),
            Err(e) => strict_flag(opt_view(value)) is None && rejected_for(e, reason@),
        },
{
    match present_exec(value) {
        None => Ok(false),
        Some(s) => if eq_str(&s, "true") || eq_str(&s, "1") {
            Ok(true)
        } else if eq_str(&s, "false") || eq_str(&s, "0") {
            Ok(false)
        } else {
            Err(bad_request(reason))
        },
    }
}

pub fn parse_include_hidden(value: Option<&str>) -> (r: Result<bool, RequestRejection>)
    ensures
        match r {
            Ok(b) => strict_flag(opt_view(value)) == Some(b),
            Err(e) => strict_flag(opt_view(value)) is None && rejected_for(
                e,
                "include_hidden_invalid"@,
            ),
        },
{
    parse_strict_flag(value, "include_hidden_invalid")
}

pub fn parse_include_source_signal(value: Option<&str>) -> (r: Result<bool, RequestRejection>)
    ensures
        match r {
            Ok(b) => strict_flag(opt_view(value)) == Some(b),
            Err(e) => strict_flag(opt_view(value)) is None && rejected_for(
                e,
                "include_source_signal_invalid"@,
            ),
        },
{
    parse_strict_flag(value, "include_source_signal_invalid")
}

/// A status filter: trimmed and lower-cased; blank or "all" (any case)
/// means no filter.
pub open spec fn status_filter(v: Option<Seq<char>>) -> Option<Seq<char>> {
    match present(v) {
        Some(s) => if lower(s) == "all"@ {
            None
        } else {
            Some(lower(s))
        },
        None => None,
    }
}

pub fn normalize_status_filter(value: Option<&str>) -> (r: Option<String>)
    ensures
        opt_string_view(r) == status_filter(opt_view(value)),
{
    proof {
        reveal_strlit("all");
        assert(lower("all"@) =~= "all"@);
    }
    match present_exec(value) {
        Some(s) => if eq_ignore_case_str(&s, "all") {
            None
        } else {
            Some(string_of(&lower_chars(&s)))
        },
        None => None,
    }
}

/// Whether an event's status passes a filter: "active" and "closed" match
/// their word ignoring case; any other filter, or none, passes everything.
pub fn status_matches(filter: Option<&str>, actual: &str) -> (r: bool)
    ensures
        r == match filter {
            Some(f) => if f@ == "active"@ {
                lower(actual@) == "active"@
            } else if f@ == "closed"@ {
                lower(actual@) == "closed"@
            } else {
                true
            },
            None => true,
        },
{
    proof {
        reveal_strlit("active");
        reveal_strlit("closed");
        assert(lower("active"@) =~= "active"@);
        assert(lower("closed"@) =~= "closed"@);
    }
    match filter {
        Some(f) => {
            let fc = chars_of(f);
            if eq_str(&fc, "active") {
                eq_ignore_case_str(&chars_of(actual), "active")
            } else if eq_str(&fc, "closed") {
                eq_ignore_case_str(&chars_of(actual), "closed")
            } else {
                true
            }
        },
        None => true,
    }
}

pub open spec fn severity_word(severity: ContractWhaleSeverity) -> Seq<char> {
    match severity {
        ContractWhaleSeverity::Calm => "calm"@,
        ContractWhaleSeverity::Medium => "medium"@,
        ContractWhaleSeverity::High => "high"@,
        ContractWhaleSeverity::Critical => "critical"@,
        ContractWhaleSeverity::S => "s"@,
    }
}

/// The key of a severity.
pub fn severity_key(severity: ContractWhaleSeverity) -> (r: &'static str)
    ensures
        r@ == severity_word(severity),
{
    match severity {
        ContractWhaleSeverity::Calm => "calm",
        ContractWhaleSeverity::Medium => "medium",
        ContractWhaleSeverity::High => "high",
        ContractWhaleSeverity::Critical => "critical",
        ContractWhaleSeverity::S => "s",
    }
}

fn clone_opt(o: &Option<String>) -> (r: Option<String>)
    ensures
        r == *o,
{
    crate::auto_tracker::clone_opt_string(o)
}

/// A copy of the query whose limit is the given text.
pub fn with_limit(query: &ContractWhaleQuery, limit: String) -> (r: ContractWhaleQuery)
    ensures
        r.limit == Some(limit),
        r.symbol == query.symbol,
        r.severity == query.severity,
        r.signal_type == query.signal_type,
        r.direction == query.direction,
        r.discord_sent == query.discord_sent,
        r.window_sec == query.window_sec,
        r.exchange == query.exchange,
        r.net_direction == query.net_direction,
        r.status == query.status,
        r.range == query.range,
        r.cursor == query.cursor,
        r.from == query.from,
        r.to == query.to,
        r.offset == query.offset,
        r.include_hidden == query.include_hidden,
        r.hide_stale == query.hide_stale,
{
    ContractWhaleQuery {
        limit: Some(limit),
        symbol: clone_opt(&query.symbol),
        severity: clone_opt(&query.severity),
        signal_type: clone_opt(&query.signal_type),
        direction: clone_opt(&query.direction),
        discord_sent: clone_opt(&query.discord_sent),
        window_sec: clone_opt(&query.window_sec),
        exchange: clone_opt(&query.exchange),
        net_direction: clone_opt(&query.net_direction),
        status: clone_opt(&query.status),
        range: clone_opt(&query.range),
        cursor: clone_opt(&query.cursor),
        from: clone_opt(&query.from),
        to: clone_opt(&query.to),
        offset: clone_opt(&query.offset),
        include_hidden: clone_opt(&query.include_hidden),
        hide_stale: clone_opt(&query.hide_stale),
    }
}

/// What checking an events query at `now` answers: the requested page size
/// (default 100, at most 500), unless the history query asking for one
/// more row, to detect a next page, is refused.
pub open spec fn events_query_check(query: ContractWhaleQuery, now: int) -> Result<int, Seq<char>> {
    match limit_param(opt_string_view(query.limit), 100, 500) {
        Err(reason) => Err(reason),
        Ok(n) => match history_error_lim(query, Some(nat_decimal((n + 1) as nat)), now) {
            Some(reason) => Err(reason),
            None => Ok(n),
        },
    }
}

/// Checks a final-events query at `now`.
pub fn validate_final_events_query_at(query: &ContractWhaleQuery, now: i64) -> (r: Result<
    usize,
    RequestRejection,
>)
    ensures
        match r {
            Ok(n) => events_query_check(*query, now as int) == Ok::<int, Seq<char>>(n as int),
            Err(e) => events_query_check(*query, now as int) is Err && rejected_for(
                e,
                events_query_check(*query, now as int)->Err_0,
            ),
        },
{
    let requested = match parse_requested_limit(opt_str(&query.limit), 100, 500) {
        Ok(n) => n,
        Err(e) => return Err(e),
    };
    let text = string_of(&u64_decimal((requested + 1) as u64));
    let probe = with_limit(query, text);
    proof {
        assert(history_error(probe, now as int) == history_error_lim(
            *query,
            Some(nat_decimal((requested + 1) as nat)),
            now as int,
        ));
    }
    match parse_history_query_at(&probe, now) {
        Ok(_) => Ok(requested),
        Err(e) => Err(e),
    }
}

/// Checks a contract-events query at `now`: as a final-events query, and
/// its `include_hidden` flag must read.
pub fn validate_contract_events_query_at(query: &ContractWhaleQuery, now: i64) -> (r: Result<
    usize,
    RequestRejection,
>)
    ensures
        match r {
            Ok(n) => events_query_check(*query, now as int) == Ok::<int, Seq<char>>(n as int)
                && strict_flag(opt_string_view(query.include_hidden)) is Some,
            Err(e) => match limit_param(opt_string_view(query.limit), 100, 500) {
                Err(reason) => rejected_for(e, reason),
                Ok(_) => if strict_flag(opt_string_view(query.include_hidden)) is None {
                    rejected_for(e, "include_hidden_invalid"@)
                } else {
                    events_query_check(*query, now as int) is Err && rejected_for(
                        e,
                        events_query_check(*query, now as int)->Err_0,
                    )
                },
            },
        },
{
    let requested = match parse_requested_limit(opt_str(&query.limit), 100, 500) {
        Ok(n) => n,
        Err(e) => return Err(e),
    };
    match parse_include_hidden(opt_str(&query.include_hidden)) {
        Ok(_) => {},
        Err(e) => return Err(e),
    }
    let text = string_of(&u64_decimal((requested + 1) as u64));
    let probe = with_limit(query, text);
    proof {
        assert(history_error(probe, now as int) == history_error_lim(
            *query,
            Some(nat_decimal((requested + 1) as nat)),
            now as int,
        ));
    }
    match parse_history_query_at(&probe, now) {
        Ok(_) => Ok(requested),
        Err(e) => Err(e),
    }
}

fn opt_str(o: &Option<String>) -> (r: Option<&str>)
    ensures
        opt_view(r) == opt_string_view(*o),
{
    match o {
        Some(s) => Some(s.as_str()),
        None => None,
    }
}

// ---------------------------------------------------------------------------
// Retention and debug reports
// ---------------------------------------------------------------------------

/// What the retention report says of one table.
pub struct RetentionTableStats {
    pub oldest_ts: Option<i64>,
    pub newest_ts: Option<i64>,
    pub row_count: Option<i64>,
    pub rows_older_than_retention: Option<i64>,
    pub protected_s_count: Option<i64>,
    pub protected_net_volume_count: Option<i64>,
    pub has_retention_cleanup: Option<bool>,
    pub reason: Option<String>,
}

/// The retention report of the contract tables.
pub struct ContractRetentionTables {
    pub contract_flow_1s: RetentionTableStats,
    pub contract_whale_signals: RetentionTableStats,
    pub main_force_events: RetentionTableStats,
}

/// A table whose figures are all unknown, for this reason.
pub open spec fn unknown_table(t: RetentionTableStats, reason: Seq<char>) -> bool {
    &&& t.oldest_ts is None
    &&& t.newest_ts is None
    &&& t.row_count is None
    &&& t.rows_older_than_retention is None
    &&& t.protected_s_count is None
    &&& t.protected_net_volume_count is None
    &&& t.has_retention_cleanup is None
    &&& opt_string_view(t.reason) == Some(reason)
}

fn unknown_table_stats(reason: &str) -> (r: RetentionTableStats)
    ensures
        unknown_table(r, reason@),
{
    RetentionTableStats {
        oldest_ts: None,
        newest_ts: None,
        row_count: None,
        rows_older_than_retention: None,
        protected_s_count: None,
        protected_net_volume_count: None,
        has_retention_cleanup: None,
        reason: Some(String::from_str(reason)),
    }
}

/// The report when the tables cannot be read: every figure unknown, for
/// the given reason.
pub fn unavailable_retention_tables(reason: &str) -> (r: ContractRetentionTables)
    ensures
        unknown_table(r.contract_flow_1s, reason@),
        unknown_table(r.contract_whale_signals, reason@),
        unknown_table(r.main_force_events, reason@),
{
    ContractRetentionTables {
        contract_flow_1s: unknown_table_stats(reason),
        contract_whale_signals: unknown_table_stats(reason),
        main_force_events: unknown_table_stats(reason),
    }
}

/// Signal counts in the database over the last day.
pub struct DebugDbCounts {
    pub contract_whale_signals_total_24h: i64,
    pub contract_whale_signals_btc_24h: i64,
    pub oldest_ts: Option<i64>,
    pub newest_ts: Option<i64>,
}

/// How many signals each filter of the API query let through.
pub struct ApiQueryDebugCounts {
    pub matched_before_filter: usize,
    pub matched_after_symbol_filter: usize,
    pub matched_after_range_filter: usize,
    pub matched_after_severity_filter: Option<usize>,
    pub matched_after_window_filter: Option<usize>,
    pub matched_after_direction_filter: Option<usize>,
    pub returned_items: usize,
    pub limit: usize,
}

/// How many projected events are hidden, by reason.
pub struct HiddenReasonCounts {
    pub price_deviation_gt_5pct: usize,
    pub missing_price: usize,
    pub bad_quality: usize,
    pub disabled_monitor: usize,
    pub unknown: usize,
}

/// How many projected events are visible and hidden.
pub struct VisibilityDebugCounts {
    pub visible_count: usize,
    pub hidden_count: usize,
    pub hidden_reasons: HiddenReasonCounts,
}

/// The latest snapshot's size and symbols.
pub struct LatestDebugCounts {
    pub latest_count: usize,
    pub latest_symbols: Vec<String>,
}

/// Active and closed final events.
pub struct FinalEventsDebugCounts {
    pub active_count: usize,
    pub closed_count: usize,
}

/// Whether a latest signal made it into the history.
pub struct LatestVsHistoryEntry {
    pub latest_event_id: String,
    pub symbol: String,
    pub ts: i64,
    pub exists_in_history: bool,
    pub history_event_id: Option<String>,
    pub not_in_history_reason: Option<String>,
}

/// The stages of the final-events projection.
pub struct FinalEventsProjectionDebug {
    pub source: String,
    pub raw_signals: usize,
    pub after_filter: usize,
    pub merged_events: usize,
    pub active: usize,
    pub closed: usize,
    pub range: String,
}

/// The debug report of the contract-event routes.
pub struct ContractEventDebugCountsResponse {
    pub symbol: String,
    pub range: String,
    pub generated_at: String,
    pub db: DebugDbCounts,
    pub api_query: ApiQueryDebugCounts,
    pub visibility: VisibilityDebugCounts,
    pub latest: LatestDebugCounts,
    pub final_events_v2: FinalEventsDebugCounts,
    pub latest_vs_history: Vec<LatestVsHistoryEntry>,
    pub final_events_projection: FinalEventsProjectionDebug,
    pub error: Option<String>,
}

/// What the reports read of a projected event.
pub struct ProjectedCandidate {
    pub event_id: String,
    pub status: String,
    pub source_signal_id: String,
    pub source_signal_ids: Vec<String>,
    pub is_visible: bool,
    pub hidden_reason: Option<String>,
}

/// The bucket a hidden reason is counted in: 0 price deviation, 1 missing
/// price, 2 bad quality, 3 disabled monitor, 4 anything else.
pub open spec fn reason_bucket(reason: Option<String>) -> int {
    match reason {
        Some(r) => if r@ == "price_deviation_gt_5pct"@ {
            0
        } else if r@ == "missing_price"@ {
            1
        } else if r@ == "bad_quality"@ {
            2
        } else if r@ == "disabled_monitor"@ {
            3
        } else {
            4
        },
        None => 4,
    }
}

/// Number of candidates among `s` that are visible.
pub open spec fn visible_count(s: Seq<ProjectedCandidate>) -> int
    decreases s.len(),
{
    if s.len() == 0 {
        0
    } else {
        visible_count(s.drop_last()) + if s.last().is_visible {
            1int
        } else {
            0
        }
    }
}

/// Number of hidden candidates among `s` counted in bucket `b`.
pub open spec fn hidden_in(s: Seq<ProjectedCandidate>, b: int) -> int
    decreases s.len(),
{
    if s.len() == 0 {
        0
    } else {
        hidden_in(s.drop_last(), b) + if !s.last().is_visible && reason_bucket(s.last().hidden_reason)
            == b {
            1int
        } else {
            0
        }
    }
}

fn bucket_of(reason: &Option<String>) -> (r: u8)
    ensures
        r == reason_bucket(*reason),
{
    match reason {
        Some(r) => {
            let c = chars_of(r.as_str());
            if eq_str(&c, "price_deviation_gt_5pct") {
                0
            } else if eq_str(&c, "missing_price") {
                1
            } else if eq_str(&c, "bad_quality") {
                2
            } else if eq_str(&c, "disabled_monitor") {
                3
            } else {
                4
            }
        },
        None => 4,
    }
}

proof fn lemma_counts_bounded(s: Seq<ProjectedCandidate>)
    ensures
        0 <= visible_count(s) <= s.len(),
        forall|b: int| 0 <= #[trigger] hidden_in(s, b) <= s.len(),
        visible_count(s) + hidden_in(s, 0) + hidden_in(s, 1) + hidden_in(s, 2) + hidden_in(s, 3)
            + hidden_in(s, 4) == s.len(),
    decreases s.len(),
{
    if s.len() > 0 {
        lemma_counts_bounded(s.drop_last());
        assert forall|b: int| 0 <= #[trigger] hidden_in(s, b) <= s.len() by {
            assert(0 <= hidden_in(s.drop_last(), b) <= s.drop_last().len());
        }
    }
}

/// Counts the visible candidates, and the hidden ones by reason.
pub fn visibility_debug_counts(candidates: &Vec<ProjectedCandidate>) -> (r: VisibilityDebugCounts)
    ensures
        r.visible_count == visible_count(candidates@),
        r.hidden_count == candidates@.len() - visible_count(candidates@),
        r.hidden_reasons.price_deviation_gt_5pct == hidden_in(candidates@, 0),
        r.hidden_reasons.missing_price == hidden_in(candidates@, 1),
        r.hidden_reasons.bad_quality == hidden_in(candidates@, 2),
        r.hidden_reasons.disabled_monitor == hidden_in(candidates@, 3),
        r.hidden_reasons.unknown == hidden_in(candidates@, 4),
{
    let mut visible: usize = 0;
    let mut hidden: usize = 0;
    let mut counts: [usize; 5] = [0, 0, 0, 0, 0];
    let mut i: usize = 0;
    while i < candidates.len()
        invariant
            i <= candidates@.len(),
            visible == visible_count(candidates@.take(i as int)),
            hidden == i - visible_count(candidates@.take(i as int)),
            forall|b: int| 0 <= b < 5 ==> #[trigger] counts@[b] == hidden_in(candidates@.take(i as int), b),
        decreases candidates.len() - i,
    {
        proof {
            assert(candidates@.take(i + 1).drop_last() =~= candidates@.take(i as int));
            lemma_counts_bounded(candidates@.take(i as int));
        }
        if candidates[i].is_visible {
            visible = visible + 1;
        } else {
            hidden = hidden + 1;
            let b = bucket_of(&candidates[i].hidden_reason) as usize;
            counts[b] = counts[b] + 1;
        }
        i = i + 1;
    }
    proof {
        assert(candidates@.take(candidates@.len() as int) =~= candidates@);
    }
    VisibilityDebugCounts {
        visible_count: visible,
        hidden_count: hidden,
        hidden_reasons: HiddenReasonCounts {
            price_deviation_gt_5pct: counts[0],
            missing_price: counts[1],
            bad_quality: counts[2],
            disabled_monitor: counts[3],
            unknown: counts[4],
        },
    }
}

/// What the comparison reads of a latest signal.
pub struct LatestSignalRef {
    pub id: String,
    /// The id of the lifecycle event it belongs to (empty when none).
    pub event_id: String,
    pub symbol: String,
    pub ts: i64,
}

/// The event id of a latest signal: its lifecycle event's, else its own.
pub open spec fn latest_id(item: LatestSignalRef) -> Seq<char> {
    if item.event_id@.len() == 0 {
        item.id@
    } else {
        item.event_id@
    }
}

/// A projected event stands for the latest signal: same event id, or the
/// signal is its source or one of its sources.
pub open spec fn stands_for(c: ProjectedCandidate, item: LatestSignalRef) -> bool {
    c.event_id@ == latest_id(item) || c.source_signal_id@ == item.id@ || exists|k: int|
        0 <= k < c.source_signal_ids@.len() && (#[trigger] c.source_signal_ids@[k])@ == item.id@
}

/// The first projected event that stands for the signal.
pub open spec fn first_match(s: Seq<ProjectedCandidate>, item: LatestSignalRef) -> Option<int> {
    if exists|j: int| 0 <= j < s.len() && stands_for(#[trigger] s[j], item) {
        Some(
            choose|j: int|
                0 <= j < s.len() && stands_for(#[trigger] s[j], item) && forall|k: int|
                    0 <= k < j ==> !stands_for(#[trigger] s[k], item),
        )
    } else {
        None
    }
}

/// The comparison entry of a latest signal: found in the projection, it
/// exists in the history when visible, else with the hidden reason; not
/// found, it is outside the requested range or not persisted yet.
pub open spec fn entry_ok(
    e: LatestVsHistoryEntry,
    item: LatestSignalRef,
    projected: Seq<ProjectedCandidate>,
    from_ts: Option<i64>,
    to_ts: Option<i64>,
) -> bool {
    &&& e.latest_event_id@ == latest_id(item)
    &&& e.symbol == item.symbol
    &&& e.ts == item.ts
    &&& match first_match(projected, item) {
        Some(j) => {
            &&& e.exists_in_history == projected[j].is_visible
            &&& opt_string_view(e.history_event_id) == Some(projected[j].event_id@)
            &&& e.not_in_history_reason == if projected[j].is_visible {
                None
            } else {
                projected[j].hidden_reason
            }
        },
        None => {
            &&& !e.exists_in_history
            &&& e.history_event_id is None
            &&& opt_string_view(e.not_in_history_reason) == Some(
                if (from_ts matches Some(f) && item.ts < f) || (to_ts matches Some(t) && item.ts
                    > t) {
                    "outside_requested_range"@
                } else {
                    "latest_snapshot_not_persisted_yet"@
                },
            )
        },
    }
}

fn stands_for_exec(c: &ProjectedCandidate, item: &LatestSignalRef, latest: &String) -> (r: bool)
    requires
        latest@ == latest_id(*item),
    ensures
        r == stands_for(*c, *item),
{
    if crate::keyed::str_eq(c.event_id.as_str(), latest.as_str()) || crate::keyed::str_eq(
        c.source_signal_id.as_str(),
        item.id.as_str(),
    ) {
        return true;
    }
    let mut k: usize = 0;
    while k < c.source_signal_ids.len()
        invariant
            k <= c.source_signal_ids@.len(),
            forall|m: int| 0 <= m < k ==> (#[trigger] c.source_signal_ids@[m])@ != item.id@,
        decreases c.source_signal_ids.len() - k,
    {
        if crate::keyed::str_eq(c.source_signal_ids[k].as_str(), item.id.as_str()) {
            return true;
        }
        k = k + 1;
    }
    false
}

/// Compares each latest signal with the projected history.
pub fn latest_vs_history(
    latest_items: &Vec<LatestSignalRef>,
    projected: &Vec<ProjectedCandidate>,
    from_ts: Option<i64>,
    to_ts: Option<i64>,
) -> (r: Vec<LatestVsHistoryEntry>)
    ensures
        r@.len() == latest_items@.len(),
        forall|i: int|
            0 <= i < r@.len() ==> entry_ok(
                #[trigger] r@[i],
                latest_items@[i],
                projected@,
                from_ts,
                to_ts,
            ),
{
    let mut out: Vec<LatestVsHistoryEntry> = Vec::new();
    let mut i: usize = 0;
    while i < latest_items.len()
        invariant
            i <= latest_items@.len(),
            out@.len() == i,
            forall|a: int|
                0 <= a < i ==> entry_ok(#[trigger] out@[a], latest_items@[a], projected@, from_ts, to_ts),
        decreases latest_items.len() - i,
    {
        let item = &latest_items[i];
        let latest = if item.event_id.as_str().unicode_len() == 0 {
            item.id.clone()
        } else {
            item.event_id.clone()
        };
        let mut j: usize = 0;
        while j < projected.len() && !stands_for_exec(&projected[j], item, &latest)
            invariant
                j <= projected@.len(),
                latest@ == latest_id(*item),
                forall|k: int| 0 <= k < j ==> !stands_for(#[trigger] projected@[k], *item),
            decreases projected.len() - j,
        {
            j = j + 1;
        }
        let found: Option<usize> = if j < projected.len() {
            Some(j)
        } else {
            None
        };
        let entry = match found {
            Some(j) => {
                proof {
                    let fm = first_match(projected@, *item);
                    assert(stands_for(projected@[j as int], *item));
                    let c = choose|c: int|
                        0 <= c < projected@.len() && stands_for(#[trigger] projected@[c], *item)
                            && forall|k: int| 0 <= k < c ==> !stands_for(#[trigger] projected@[k], *item);
                    if c < j {
                        assert(!stands_for(projected@[c], *item));
                    } else if c > j {
                        assert(!stands_for(projected@[j as int], *item));
                    }
                    assert(fm == Some(j as int));
                }
                let c = &projected[j];
                LatestVsHistoryEntry {
                    latest_event_id: latest,
                    symbol: item.symbol.clone(),
                    ts: item.ts,
                    exists_in_history: c.is_visible,
                    history_event_id: Some(c.event_id.clone()),
                    not_in_history_reason: if c.is_visible {
                        None
                    } else {
                        crate::auto_tracker::clone_opt_string(&c.hidden_reason)
                    },
                }
            },
            None => {
                proof {
                    assert(!exists|c: int| 0 <= c < projected@.len() && stands_for(
                        #[trigger] projected@[c],
                        *item,
                    ));
                }
                let outside = match from_ts {
                    Some(f) => item.ts < f,
                    None => false,
                } || match to_ts {
                    Some(t) => item.ts > t,
                    None => false,
                };
                LatestVsHistoryEntry {
                    latest_event_id: latest,
                    symbol: item.symbol.clone(),
                    ts: item.ts,
                    exists_in_history: false,
                    history_event_id: None,
                    not_in_history_reason: Some(
                        String::from_str(
                            if outside {
                                "outside_requested_range"
                            } else {
                                "latest_snapshot_not_persisted_yet"
                            },
                        ),
                    ),
                }
            },
        };
        out.push(entry);
        i = i + 1;
    }
    out
}

/// Checks a final-events query now: a named range counts back from the
/// wall clock, read once.
pub fn validate_final_events_query(query: &ContractWhaleQuery) -> (r: Result<usize, RequestRejection>)
    ensures
        exists|now: i64|
            match r {
                Ok(n) => #[trigger] events_query_check(*query, now as int) == Ok::<int, Seq<char>>(
                    n as int,
                ),
                Err(e) => #[trigger] events_query_check(*query, now as int) is Err && rejected_for(
                    e,
                    events_query_check(*query, now as int)->Err_0,
                ),
            },
{
    let now = crate::clock::now_ms();
    validate_final_events_query_at(query, now)
}

/// Checks a contract-events query now: a named range counts back from the
/// wall clock, read once.
pub fn validate_contract_events_query(query: &ContractWhaleQuery) -> (r: Result<usize, RequestRejection>)
    ensures
        exists|now: i64|
            match r {
                Ok(n) => #[trigger] events_query_check(*query, now as int) == Ok::<int, Seq<char>>(
                    n as int,
                ) && strict_flag(opt_string_view(query.include_hidden)) is Some,
                Err(_) => #[trigger] events_query_check(*query, now as int) is Err || strict_flag(
                    opt_string_view(query.include_hidden),
                ) is None,
            },
{
    let now = crate::clock::now_ms();
    let r = validate_contract_events_query_at(query, now);
    proof {
        match r {
            Ok(_) => {},
            Err(_) => {
                assert(events_query_check(*query, now as int) is Err || strict_flag(
                    opt_string_view(query.include_hidden),
                ) is None);
            },
        }
    }
    r
}

} // verus!
