//! The debug report of the contract-event routes: what a query for a
//! symbol asks for, and how many signals each stage of the projection
//! keeps.
use vstd::prelude::*;

use crate::events::{
    entry_ok, latest_vs_history, parse_requested_limit, visibility_debug_counts, visible_count,
    ApiQueryDebugCounts, ContractEventDebugCountsResponse, DebugDbCounts, FinalEventsDebugCounts,
    FinalEventsProjectionDebug, HiddenReasonCounts, LatestDebugCounts, LatestSignalRef,
    ProjectedCandidate, VisibilityDebugCounts,
};
use crate::query_parse::opt_view;
use crate::text::{chars_of, i64_decimal, int_decimal, lower, string_of, upper, upper_chars};
use crate::whale_query::{limit_param, opt_string_view, ContractWhaleQuery};

verus! {

/// What the report is asked for: the symbol (upper-cased, `BTC` when
/// none), the range (`24h` when none) and the page size (500 at most, 500
/// when absent or not a number).
pub struct DebugCountsRequest {
    pub symbol: String,
    pub range: String,
    pub limit: usize,
}

/// The request of a debug report from its query.
pub fn debug_counts_request(query: &ContractWhaleQuery) -> (r: DebugCountsRequest)
    ensures
        r.symbol@ == upper(
            match opt_string_view(query.symbol) {
                Some(s) => s,
                None => "BTC"@,
            },
        ),
        r.range@ == match opt_string_view(query.range) {
            Some(s) => s,
            None => "24h"@,
        },
        r.limit == match limit_param(opt_string_view(query.limit), 500, 500) {
            Ok(n) => n,
            Err(_) => 500,
        },
{
    let limit_text: Option<&str> = match &query.limit {
        Some(s) => Some(s.as_str()),
        None => None,
    };
    let limit = match parse_requested_limit(limit_text, 500, 500) {
        Ok(n) => n,
        Err(_) => 500,
    };
    proof {
        assert(opt_view(limit_text) == opt_string_view(query.limit));
    }
    let range = match &query.range {
        Some(s) => s.clone(),
        None => String::from_str("24h"),
    };
    let symbol = match &query.symbol {
        Some(s) => string_of(&upper_chars(&chars_of(s.as_str()))),
        None => string_of(&upper_chars(&chars_of("BTC"))),
    };
    DebugCountsRequest { symbol, range, limit }
}

/// Visible candidates whose status is `word`, ignoring case.
pub open spec fn status_count(s: Seq<ProjectedCandidate>, word: Seq<char>) -> int
    decreases s.len(),
{
    if s.len() == 0 {
        0
    } else {
        status_count(s.drop_last(), word) + if s.last().is_visible && lower(s.last().status@)
            == word {
            1int
        } else {
            0
        }
    }
}

proof fn lemma_status_count_bounded(s: Seq<ProjectedCandidate>, word: Seq<char>)
    ensures
        0 <= status_count(s, word) <= s.len(),
    decreases s.len(),
{
    if s.len() > 0 {
        lemma_status_count_bounded(s.drop_last(), word);
    }
}

/// The visible final events that are active and closed.
pub fn final_events_debug_counts(candidates: &Vec<ProjectedCandidate>) -> (r: FinalEventsDebugCounts)
    ensures
        r.active_count == status_count(candidates@, "active"@),
        r.closed_count == status_count(candidates@, "closed"@),
{
    let ghost all = candidates@;
    let mut active: usize = 0;
    let mut closed: usize = 0;
    let mut i: usize = 0;
    while i < candidates.len()
        invariant
            all == candidates@,
            i <= all.len(),
            active == status_count(all.take(i as int), "active"@),
            closed == status_count(all.take(i as int), "closed"@),
        decreases candidates.len() - i,
    {
        proof {
            assert(all.take(i + 1).drop_last() =~= all.take(i as int));
            assert(all.take(i + 1).last() == all[i as int]);
            lemma_status_count_bounded(all.take(i as int), "active"@);
            lemma_status_count_bounded(all.take(i as int), "closed"@);
            reveal_strlit("active");
            reveal_strlit("closed");
            assert("active"@[0] != "closed"@[0]);
        }
        let c = &candidates[i];
        if c.is_visible {
            let st = crate::text::lower_chars(&chars_of(c.status.as_str()));
            if crate::text::eq_str(&st, "active") {
                active = active + 1;
            } else if crate::text::eq_str(&st, "closed") {
                closed = closed + 1;
            }
        }
        i = i + 1;
    }
    proof {
        assert(all.take(i as int) =~= all);
    }
    FinalEventsDebugCounts { active_count: active, closed_count: closed }
}

fn zero_visibility() -> (r: VisibilityDebugCounts)
    ensures
        r.visible_count == 0 && r.hidden_count == 0,
        r.hidden_reasons.price_deviation_gt_5pct == 0 && r.hidden_reasons.missing_price == 0
            && r.hidden_reasons.bad_quality == 0 && r.hidden_reasons.disabled_monitor == 0
            && r.hidden_reasons.unknown == 0,
{
    VisibilityDebugCounts {
        visible_count: 0,
        hidden_count: 0,
        hidden_reasons: HiddenReasonCounts {
            price_deviation_gt_5pct: 0,
            missing_price: 0,
            bad_quality: 0,
            disabled_monitor: 0,
            unknown: 0,
        },
    }
}

/// The report when the query cannot be run (a bad request, or no store):
/// every count zero or empty, the page size kept, and the error.
pub fn unavailable_debug_counts(
    request: DebugCountsRequest,
    generated_at_ms: i64,
    error: &str,
) -> (r: ContractEventDebugCountsResponse)
    ensures
        r.symbol == request.symbol,
        r.range == request.range,
        r.generated_at@ == int_decimal(generated_at_ms as int),
        r.db.contract_whale_signals_total_24h == 0 && r.db.contract_whale_signals_btc_24h == 0
            && r.db.oldest_ts is None && r.db.newest_ts is None,
        r.api_query.limit == request.limit,
        r.api_query.matched_before_filter == 0 && r.api_query.matched_after_symbol_filter == 0
            && r.api_query.matched_after_range_filter == 0
            && r.api_query.matched_after_severity_filter is None
            && r.api_query.matched_after_window_filter is None
            && r.api_query.matched_after_direction_filter is None && r.api_query.returned_items == 0,
        r.visibility.visible_count == 0 && r.visibility.hidden_count == 0,
        r.latest.latest_count == 0 && r.latest.latest_symbols@.len() == 0,
        r.final_events_v2.active_count == 0 && r.final_events_v2.closed_count == 0,
        r.latest_vs_history@.len() == 0,
        r.final_events_projection.raw_signals == 0 && r.final_events_projection.after_filter == 0
            && r.final_events_projection.merged_events == 0 && r.final_events_projection.active == 0
            && r.final_events_projection.closed == 0,
        r.final_events_projection.source@.len() == 0 && r.final_events_projection.range@.len()
            == 0,
        opt_string_view(r.error) == Some(error@),
{
    ContractEventDebugCountsResponse {
        symbol: request.symbol,
        range: request.range,
        generated_at: string_of(&i64_decimal(generated_at_ms)),
        db: DebugDbCounts {
            contract_whale_signals_total_24h: 0,
            contract_whale_signals_btc_24h: 0,
            oldest_ts: None,
            newest_ts: None,
        },
        api_query: ApiQueryDebugCounts {
            matched_before_filter: 0,
            matched_after_symbol_filter: 0,
            matched_after_range_filter: 0,
            matched_after_severity_filter: None,
            matched_after_window_filter: None,
            matched_after_direction_filter: None,
            returned_items: 0,
            limit: request.limit,
        },
        visibility: zero_visibility(),
        latest: LatestDebugCounts { latest_count: 0, latest_symbols: Vec::new() },
        final_events_v2: FinalEventsDebugCounts { active_count: 0, closed_count: 0 },
        latest_vs_history: Vec::new(),
        final_events_projection: FinalEventsProjectionDebug {
            source: String::new(),
            raw_signals: 0,
            after_filter: 0,
            merged_events: 0,
            active: 0,
            closed: 0,
            range: String::new(),
        },
        error: Some(String::from_str(error)),
    }
}

fn symbols_of(items: &Vec<LatestSignalRef>) -> (r: Vec<String>)
    ensures
        r@.len() == items@.len(),
        forall|i: int| 0 <= i < items@.len() ==> #[trigger] r@[i] == items@[i].symbol,
{
    let mut out: Vec<String> = Vec::new();
    let mut i: usize = 0;
    while i < items.len()
        invariant
            i <= items@.len(),
            out@.len() == i,
            forall|k: int| 0 <= k < i ==> #[trigger] out@[k] == items@[k].symbol,
        decreases items.len() - i,
    {
        out.push(items[i].symbol.clone());
        i = i + 1;
    }
    out
}

/// The counts the database reports for the symbol, read as a count of
/// matching signals (a negative figure counts as none).
pub open spec fn db_matched(db: DebugDbCounts) -> usize {
    (if db.contract_whale_signals_btc_24h < 0 {
        0
    } else {
        db.contract_whale_signals_btc_24h
    }) as usize
}

/// The debug report of a query: the database's counts, the `raw_count`
/// rows the query returned (each of the severity, window and direction
/// filters, when given, reported as keeping them all), the projected
/// candidates' visibility and final-event counts, the latest signals and
/// how each compares with the projection over `[from_ts, to_ts]`.
pub fn contract_event_debug_counts(
    request: DebugCountsRequest,
    generated_at_ms: i64,
    db: DebugDbCounts,
    raw_count: usize,
    severity_filtered: bool,
    window_filtered: bool,
    direction_filtered: bool,
    projected: &Vec<ProjectedCandidate>,
    latest_items: &Vec<LatestSignalRef>,
    from_ts: Option<i64>,
    to_ts: Option<i64>,
) -> (r: ContractEventDebugCountsResponse)
    ensures
        r.symbol == request.symbol,
        r.range == request.range,
        r.generated_at@ == int_decimal(generated_at_ms as int),
        r.db == db,
        r.api_query.matched_before_filter == db_matched(db),
        r.api_query.matched_after_symbol_filter == db_matched(db),
        r.api_query.matched_after_range_filter == raw_count,
        r.api_query.matched_after_severity_filter == if severity_filtered {
            Some(raw_count)
        } else {
            None::<usize>
        },
        r.api_query.matched_after_window_filter == if window_filtered {
            Some(raw_count)
        } else {
            None::<usize>
        },
        r.api_query.matched_after_direction_filter == if direction_filtered {
            Some(raw_count)
        } else {
            None::<usize>
        },
        r.api_query.returned_items == visible_count(projected@),
        r.api_query.limit == request.limit,
        r.visibility.visible_count == visible_count(projected@),
        r.visibility.hidden_count == projected@.len() - visible_count(projected@),
        r.latest.latest_count == latest_items@.len(),
        r.latest.latest_symbols@.len() == latest_items@.len(),
        forall|i: int|
            0 <= i < latest_items@.len() ==> #[trigger] r.latest.latest_symbols@[i]
                == latest_items@[i].symbol,
        r.final_events_v2.active_count == status_count(projected@, "active"@),
        r.final_events_v2.closed_count == status_count(projected@, "closed"@),
        r.latest_vs_history@.len() == latest_items@.len(),
        forall|i: int|
            0 <= i < latest_items@.len() ==> entry_ok(
                #[trigger] r.latest_vs_history@[i],
                latest_items@[i],
                projected@,
                from_ts,
                to_ts,
            ),
        r.final_events_projection.source@ == "contract_whale_signals"@,
        r.final_events_projection.raw_signals == raw_count,
        r.final_events_projection.after_filter == visible_count(projected@),
        r.final_events_projection.merged_events == visible_count(projected@),
        r.final_events_projection.active == status_count(projected@, "active"@),
        r.final_events_projection.closed == status_count(projected@, "closed"@),
        r.final_events_projection.range@ == request.range@,
        r.error is None,
{
    let matched: usize = if db.contract_whale_signals_btc_24h < 0 {
        0
    } else {
        db.contract_whale_signals_btc_24h as usize
    };
    let visibility = visibility_debug_counts(projected);
    let finals = final_events_debug_counts(projected);
    let comparison = latest_vs_history(latest_items, projected, from_ts, to_ts);
    let visible = visibility.visible_count;
    let active = finals.active_count;
    let closed = finals.closed_count;
    let range_copy = request.range.clone();
    ContractEventDebugCountsResponse {
        symbol: request.symbol,
        range: request.range,
        generated_at: string_of(&i64_decimal(generated_at_ms)),
        db,
        api_query: ApiQueryDebugCounts {
            matched_before_filter: matched,
            matched_after_symbol_filter: matched,
            matched_after_range_filter: raw_count,
            matched_after_severity_filter: if severity_filtered {
                Some(raw_count)
            } else {
                None
            },
            matched_after_window_filter: if window_filtered {
                Some(raw_count)
            } else {
                None
            },
            matched_after_direction_filter: if direction_filtered {
                Some(raw_count)
            } else {
                None
            },
            returned_items: visible,
            limit: request.limit,
        },
        visibility,
        latest: LatestDebugCounts {
            latest_count: latest_items.len(),
            latest_symbols: symbols_of(latest_items),
        },
        final_events_v2: finals,
        latest_vs_history: comparison,
        final_events_projection: FinalEventsProjectionDebug {
            source: String::from_str("contract_whale_signals"),
            raw_signals: raw_count,
            after_filter: visible,
            merged_events: visible,
            active,
            closed,
            range: range_copy,
        },
        error: None,
    }
}

} // verus!
