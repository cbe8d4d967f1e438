//! The pipeline's debug views: which layer a delay comes from, how old and
//! how stale the latest signals are, and the flow buckets a detector window
//! covers.
use vstd::prelude::*;

use crate::event_pages::{secs_after, secs_after_exec, ContractEventPage};
use crate::events::FinalEventsV2Response;
use crate::whale_labels::{max_opt, max_option};
use crate::orderflow::{sat_sub, saturating_sub_i64};
use crate::query_parse::opt_view;
use crate::text::{
    append_chars, chars_of, eq_chars, lower, lower_chars, nat_decimal, push_str, string_of,
    u64_decimal,
};
use crate::whale_labels::{stale_reason, stale_reason_for_range};

verus! {

/// Where a delay between the layers comes from, and why.
pub struct ContractWhaleLatencyDiagnosis {
    pub layer: String,
    pub reason: String,
}

/// The layer and reason of a delay at `now`, from the newest time of the
/// latest view, the history, the final events and the flow state: the
/// history lags when it has nothing or trails the latest by over fifteen
/// seconds, the projection when it trails the history by as much, the flow
/// when it was not updated for half a minute.
pub open spec fn latency_diagnosis(
    latest_max_ts: Option<i64>,
    history_max_ts: Option<i64>,
    final_max_ts: Option<i64>,
    flow_updated_at: Option<i64>,
    now: i64,
) -> (Seq<char>, Seq<char>) {
    match latest_max_ts {
        None => ("ok"@, "no_recent_signal"@),
        Some(latest) => match history_max_ts {
            None => ("history"@, "latest_ahead_of_history"@),
            Some(history) => if sat_sub(latest as int, history as int) > 15_000 {
                ("history"@, "history_persist_lagging_latest"@)
            } else if final_max_ts matches Some(f) && sat_sub(history as int, f as int) > 15_000 {
                ("final_events_v2"@, "projection_lagging_history"@)
            } else if flow_updated_at matches Some(t) && sat_sub(now as int, t as int) > 30_000 {
                ("flow"@, "flow_state_stale"@)
            } else {
                ("ok"@, "in_sync"@)
            },
        },
    }
}

fn diagnosis(layer: &str, reason: &str) -> (r: ContractWhaleLatencyDiagnosis)
    ensures
        r.layer@ == layer@,
        r.reason@ == reason@,
{
    ContractWhaleLatencyDiagnosis { layer: String::from_str(layer), reason: String::from_str(reason) }
}

/// The diagnosis of a delay at `now`; see `latency_diagnosis`.
pub fn diagnose_contract_whale_latency(
    latest_max_ts: Option<i64>,
    history_max_ts: Option<i64>,
    final_max_ts: Option<i64>,
    flow_updated_at: Option<i64>,
    now: i64,
) -> (r: ContractWhaleLatencyDiagnosis)
    ensures
        (r.layer@, r.reason@) == latency_diagnosis(
            latest_max_ts,
            history_max_ts,
            final_max_ts,
            flow_updated_at,
            now,
        ),
{
    let latest = match latest_max_ts {
        Some(t) => t,
        None => return diagnosis("ok", "no_recent_signal"),
    };
    let history = match history_max_ts {
        Some(t) => t,
        None => return diagnosis("history", "latest_ahead_of_history"),
    };
    if saturating_sub_i64(latest, history) > 15_000 {
        return diagnosis("history", "history_persist_lagging_latest");
    }
    if let Some(f) = final_max_ts {
        if saturating_sub_i64(history, f) > 15_000 {
            return diagnosis("final_events_v2", "projection_lagging_history");
        }
    }
    if let Some(t) = flow_updated_at {
        if saturating_sub_i64(now, t) > 30_000 {
            return diagnosis("flow", "flow_state_stale");
        }
    }
    diagnosis("ok", "in_sync")
}

/// A row of the latest view, as far as its debug entry reads it.
pub struct LatestRowFacts {
    pub id: String,
    pub event_id: String,
    pub ts: i64,
}

/// How old one latest row is and whether it is stale.
pub struct PipelineLatestItemDebug {
    pub event_id: String,
    pub ts: i64,
    pub age_sec: i64,
    pub is_stale: bool,
    pub stale_reason: Option<String>,
}

/// The ages of the latest rows.
pub struct PipelineLatestDebug {
    pub latest_count: usize,
    pub stale_count: usize,
    pub max_age_sec: i64,
    pub items: Vec<PipelineLatestItemDebug>,
}

/// A row is stale when it is older than the cutoff.
pub open spec fn is_stale_row(row: LatestRowFacts, stale_after_ts: Option<i64>) -> bool {
    stale_after_ts matches Some(cutoff) && row.ts < cutoff
}

/// The debug entry of a row at `now`: its event id (the row id when it has
/// none), its age in whole seconds, and, when stale, why for the range.
pub open spec fn item_ok(
    item: PipelineLatestItemDebug,
    row: LatestRowFacts,
    stale_after_ts: Option<i64>,
    range_label: Option<Seq<char>>,
    now: i64,
) -> bool {
    &&& item.event_id@ == if row.event_id@.len() == 0 {
        row.id@
    } else {
        row.event_id@
    }
    &&& item.ts == row.ts
    &&& item.age_sec == secs_after(now, row.ts)
    &&& item.is_stale == is_stale_row(row, stale_after_ts)
    &&& match item.stale_reason {
        Some(r) => item.is_stale && r@ == stale_reason(range_label),
        None => !item.is_stale,
    }
}

/// How many rows are stale.
pub open spec fn stale_count_of(rows: Seq<LatestRowFacts>, stale_after_ts: Option<i64>) -> nat
    decreases rows.len(),
{
    if rows.len() == 0 {
        0
    } else {
        stale_count_of(rows.drop_last(), stale_after_ts) + if is_stale_row(
            rows.last(),
            stale_after_ts,
        ) {
            1nat
        } else {
            0nat
        }
    }
}

/// The greatest age of the rows, zero when there are none.
pub open spec fn max_age_of(rows: Seq<LatestRowFacts>, now: i64) -> int
    decreases rows.len(),
{
    if rows.len() == 0 {
        0
    } else {
        let rest = max_age_of(rows.drop_last(), now);
        let a = secs_after(now, rows.last().ts);
        if a > rest {
            a
        } else {
            rest
        }
    }
}

/// The debug entry of a row at `now`; see `item_ok`.
pub fn stale_debug_item(
    row: &LatestRowFacts,
    stale_after_ts: Option<i64>,
    range_label: Option<&str>,
    now: i64,
) -> (r: PipelineLatestItemDebug)
    ensures
        item_ok(r, *row, stale_after_ts, opt_view(range_label), now),
{
    let d = saturating_sub_i64(now, row.ts);
    let age_sec: i64 = if d < 0 {
        0
    } else {
        d / 1000
    };
    let is_stale = match stale_after_ts {
        Some(cutoff) => row.ts < cutoff,
        None => false,
    };
    let event_id = if row.event_id.unicode_len() == 0 {
        row.id.clone()
    } else {
        row.event_id.clone()
    };
    PipelineLatestItemDebug {
        event_id,
        ts: row.ts,
        age_sec,
        is_stale,
        stale_reason: if is_stale {
            Some(stale_reason_for_range(range_label))
        } else {
            None
        },
    }
}

/// The debug view of the latest rows at `now`: an entry per row, how many
/// are stale, and the greatest age.
pub fn build_pipeline_latest_debug(
    rows: &Vec<LatestRowFacts>,
    stale_after_ts: Option<i64>,
    range_label: Option<&str>,
    now: i64,
) -> (r: PipelineLatestDebug)
    ensures
        r.items@.len() == rows@.len(),
        forall|i: int|
            0 <= i < rows@.len() ==> item_ok(
                #[trigger] r.items@[i],
                rows@[i],
                stale_after_ts,
                opt_view(range_label),
                now,
            ),
        r.latest_count == rows@.len(),
        r.stale_count == stale_count_of(rows@, stale_after_ts),
        r.max_age_sec == max_age_of(rows@, now),
{
    let ghost all = rows@;
    let mut items: Vec<PipelineLatestItemDebug> = Vec::new();
    let mut stale: usize = 0;
    let mut max_age: i64 = 0;
    let mut i: usize = 0;
    while i < rows.len()
        invariant
            all == rows@,
            i <= all.len(),
            items@.len() == i,
            forall|k: int|
                0 <= k < i ==> item_ok(
                    #[trigger] items@[k],
                    all[k],
                    stale_after_ts,
                    opt_view(range_label),
                    now,
                ),
            stale <= i,
            stale == stale_count_of(all.take(i as int), stale_after_ts),
            max_age == max_age_of(all.take(i as int), now),
        decreases rows.len() - i,
    {
        proof {
            assert(all.take(i + 1).drop_last() =~= all.take(i as int));
            assert(all.take(i + 1).last() == all[i as int]);
        }
        let item = stale_debug_item(&rows[i], stale_after_ts, range_label, now);
        if item.is_stale {
            stale = stale + 1;
        }
        if item.age_sec > max_age {
            max_age = item.age_sec;
        }
        items.push(item);
        i = i + 1;
    }
    proof {
        assert(all.take(i as int) =~= all);
    }
    PipelineLatestDebug { latest_count: rows.len(), stale_count: stale, max_age_sec: max_age, items }
}

/// A flow bucket of a symbol.
pub struct FlowBucketRef {
    pub symbol: String,
    pub ts_bucket: i64,
}

/// The bucket is of the symbol (ignoring case) and inside the window.
pub open spec fn in_window(b: FlowBucketRef, symbol: Seq<char>, from_ts: i64, to_ts: i64) -> bool {
    &&& lower(b.symbol@) == lower(symbol)
    &&& from_ts <= b.ts_bucket <= to_ts
}

/// Some bucket of the symbol inside the window starts at `t`.
pub open spec fn window_has(
    buckets: Seq<FlowBucketRef>,
    symbol: Seq<char>,
    from_ts: i64,
    to_ts: i64,
    t: i64,
) -> bool {
    exists|k: int|
        0 <= k < buckets.len() && in_window(#[trigger] buckets[k], symbol, from_ts, to_ts)
            && buckets[k].ts_bucket == t
}

pub open spec fn strictly_increasing(s: Seq<i64>) -> bool {
    forall|i: int, j: int| 0 <= i < j < s.len() ==> s[i] < s[j]
}

proof fn lemma_insert_keeps_order(before: Seq<i64>, p: int, t: i64)
    requires
        strictly_increasing(before),
        0 <= p <= before.len(),
        forall|k: int| 0 <= k < p ==> before[k] < t,
        p < before.len() ==> before[p] > t,
    ensures
        strictly_increasing(before.insert(p, t)),
{
    let after = before.insert(p, t);
    assert forall|i: int, j: int| 0 <= i < j < after.len() implies after[i] < after[j] by {
        if j < p {
        } else if j == p {
        } else if i < p {
            assert(after[j] == before[j - 1]);
            if j - 1 > p {
                assert(before[p] < before[j - 1]);
            }
        } else if i == p {
            assert(after[j] == before[j - 1]);
            if j - 1 > p {
                assert(before[p] < before[j - 1]);
            }
        } else {
            assert(after[i] == before[i - 1]);
            assert(after[j] == before[j - 1]);
        }
    }
}

proof fn lemma_insert_members(before: Seq<i64>, p: int, t: i64)
    requires
        0 <= p <= before.len(),
    ensures
        forall|x: i64| before.insert(p, t).contains(x) <==> (before.contains(x) || x == t),
{
    let after = before.insert(p, t);
    assert forall|x: i64| after.contains(x) <==> (before.contains(x) || x == t) by {
        if after.contains(x) {
            let k = choose|k: int| 0 <= k < after.len() && after[k] == x;
            if k < p {
                assert(before[k] == x);
            } else if k > p {
                assert(before[k - 1] == x);
            }
        }
        if before.contains(x) {
            let k = choose|k: int| 0 <= k < before.len() && before[k] == x;
            if k < p {
                assert(after[k] == x);
            } else {
                assert(after[k + 1] == x);
            }
        }
        if x == t {
            assert(after[p] == t);
        }
    }
}

/// Inserts `t` into a strictly increasing vector unless it is there.
fn insert_sorted(v: &mut Vec<i64>, t: i64)
    requires
        strictly_increasing(old(v)@),
    ensures
        strictly_increasing(final(v)@),
        forall|x: i64| final(v)@.contains(x) <==> (old(v)@.contains(x) || x == t),
{
    let mut p: usize = 0;
    while p < v.len() && v[p] < t
        invariant
            p <= v@.len(),
            forall|k: int| 0 <= k < p ==> v@[k] < t,
        decreases v.len() - p,
    {
        p = p + 1;
    }
    if p < v.len() && v[p] == t {
        proof {
            assert(v@[p as int] == t);
            assert(v@.contains(t));
        }
        return;
    }
    let ghost before = v@;
    proof {
        lemma_insert_keeps_order(before, p as int, t);
        lemma_insert_members(before, p as int, t);
    }
    v.insert(p, t);
}

/// The distinct start times, in increasing order, of the buckets of
/// `symbol` (ignoring case) inside `[from_ts, to_ts]`.
pub fn detector_window_timestamps(
    buckets: &Vec<FlowBucketRef>,
    symbol: &str,
    from_ts: i64,
    to_ts: i64,
) -> (r: Vec<i64>)
    ensures
        strictly_increasing(r@),
        forall|t: i64| r@.contains(t) <==> window_has(buckets@, symbol@, from_ts, to_ts, t),
{
    let target = lower_chars(&chars_of(symbol));
    let mut out: Vec<i64> = Vec::new();
    let mut i: usize = 0;
    while i < buckets.len()
        invariant
            i <= buckets@.len(),
            target@ == lower(symbol@),
            strictly_increasing(out@),
            forall|t: i64|
                out@.contains(t) <==> window_has(buckets@.take(i as int), symbol@, from_ts, to_ts, t),
        decreases buckets.len() - i,
    {
        let b = &buckets[i];
        let same = eq_chars(&lower_chars(&chars_of(b.symbol.as_str())), &target);
        let hit = same && from_ts <= b.ts_bucket && b.ts_bucket <= to_ts;
        let ghost prev = out@;
        if hit {
            insert_sorted(&mut out, b.ts_bucket);
        }
        proof {
            let pre = buckets@.take(i as int);
            let cur = buckets@.take(i + 1);
            assert forall|t: i64|
                out@.contains(t) <==> window_has(cur, symbol@, from_ts, to_ts, t) by {
                if window_has(pre, symbol@, from_ts, to_ts, t) {
                    let k = choose|k: int|
                        0 <= k < pre.len() && in_window(#[trigger] pre[k], symbol@, from_ts, to_ts)
                            && pre[k].ts_bucket == t;
                    assert(cur[k] == pre[k]);
                }
                if window_has(cur, symbol@, from_ts, to_ts, t) {
                    let k = choose|k: int|
                        0 <= k < cur.len() && in_window(#[trigger] cur[k], symbol@, from_ts, to_ts)
                            && cur[k].ts_bucket == t;
                    if k < i {
                        assert(pre[k] == cur[k]);
                    } else {
                        assert(cur[k] == buckets@[i as int]);
                    }
                }
                if hit && t == b.ts_bucket {
                    assert(cur[i as int] == buckets@[i as int]);
                }
            }
        }
        i = i + 1;
    }
    proof {
        assert(buckets@.take(i as int) =~= buckets@);
    }
    out
}

/// Why the raw flow of a symbol is or is not there.
pub struct RawFlowDiagnosisDebug {
    pub status: String,
    pub primary_reason: String,
    pub details: Vec<String>,
}

/// Some flow window counted a trade.
pub open spec fn has_window_trades(window_trade_counts: Seq<u64>) -> bool {
    exists|i: int| 0 <= i < window_trade_counts.len() && window_trade_counts[i] > 0
}

/// The status, reason and details of the raw-flow diagnosis: a connector
/// asking for another symbol, no trade messages, trades that never reach
/// the windows, windows whose flow is not stored, and stored rows, in that
/// order; else unknown.
pub open spec fn raw_flow_diagnosis(
    app_requested_symbol: Seq<char>,
    query_symbol: Seq<char>,
    connector_symbol_mismatch: bool,
    total_trade_messages: u64,
    window_trades: bool,
    exact_symbol_rows: nat,
    sibling_symbol_rows: nat,
) -> (Seq<char>, Seq<char>, Seq<Seq<char>>) {
    if connector_symbol_mismatch && exact_symbol_rows == 0 {
        let first = "connector requested "@ + app_requested_symbol + " while query symbol is "@
            + query_symbol;
        (
            "upstream_no_raw_flow"@,
            "connector_requested_symbol_mismatch"@,
            if sibling_symbol_rows > 0 {
                seq![
                    first,
                    "contract_flow_1s has "@ + nat_decimal(sibling_symbol_rows) + " sibling rows under "@
                        + query_symbol + "-like symbols/products"@,
                ]
            } else {
                seq![first]
            },
        )
    } else if total_trade_messages == 0 && exact_symbol_rows == 0 {
        (
            "upstream_no_raw_flow"@,
            "no_trade_ingest_activity"@,
            seq!["venue health reports zero parsed trade messages"@],
        )
    } else if total_trade_messages > 0 && !window_trades && exact_symbol_rows == 0 {
        (
            "upstream_no_raw_flow"@,
            "aggregator_not_producing_symbol_flow"@,
            seq!["trade messages exist but 5s/15s/60s flow windows are empty"@],
        )
    } else if window_trades && exact_symbol_rows == 0 {
        (
            "upstream_no_raw_flow"@,
            "contract_flow_not_persisted"@,
            seq!["rolling windows have trades but contract_flow_1s has no matching persisted rows"@],
        )
    } else if exact_symbol_rows > 0 {
        (
            "raw_flow_available"@,
            "raw_flow_present"@,
            seq![
                "contract_flow_1s contains "@ + nat_decimal(exact_symbol_rows) + " exact "@
                    + query_symbol + " rows in requested range"@,
            ],
        )
    } else {
        (
            "upstream_no_raw_flow"@,
            "unknown"@,
            seq!["raw flow unavailable but no dominant reason inferred"@],
        )
    }
}

fn line(text: &str) -> (r: Vec<String>)
    ensures
        r@.len() == 1,
        r@[0]@ == text@,
{
    let mut v: Vec<String> = Vec::new();
    v.push(String::from_str(text));
    v
}

fn verdict(status: &str, reason: &str, details: Vec<String>) -> (r: RawFlowDiagnosisDebug)
    ensures
        r.status@ == status@,
        r.primary_reason@ == reason@,
        r.details@ == details@,
{
    RawFlowDiagnosisDebug {
        status: String::from_str(status),
        primary_reason: String::from_str(reason),
        details,
    }
}

/// The raw-flow diagnosis of a query symbol; see `raw_flow_diagnosis`.
/// `window_trade_counts` holds the trade count of each rolling window.
pub fn build_raw_flow_diagnosis(
    app_requested_symbol: &str,
    query_symbol: &str,
    connector_symbol_mismatch: bool,
    total_trade_messages: u64,
    window_trade_counts: &Vec<u64>,
    exact_symbol_rows: usize,
    sibling_symbol_rows: usize,
) -> (r: RawFlowDiagnosisDebug)
    ensures
        ({
            let d = raw_flow_diagnosis(
                app_requested_symbol@,
                query_symbol@,
                connector_symbol_mismatch,
                total_trade_messages,
                has_window_trades(window_trade_counts@),
                exact_symbol_rows as nat,
                sibling_symbol_rows as nat,
            );
            &&& r.status@ == d.0
            &&& r.primary_reason@ == d.1
            &&& r.details@.len() == d.2.len()
            &&& forall|i: int| 0 <= i < d.2.len() ==> (#[trigger] r.details@[i])@ == d.2[i]
        }),
{
    let mut window_trades = false;
    let mut i: usize = 0;
    while i < window_trade_counts.len()
        invariant
            i <= window_trade_counts@.len(),
            window_trades == exists|j: int| 0 <= j < i && window_trade_counts@[j] > 0,
        decreases window_trade_counts.len() - i,
    {
        if window_trade_counts[i] > 0 {
            window_trades = true;
        }
        i = i + 1;
    }
    if connector_symbol_mismatch && exact_symbol_rows == 0 {
        let mut first: Vec<char> = Vec::new();
        push_str(&mut first, "connector requested ");
        push_str(&mut first, app_requested_symbol);
        push_str(&mut first, " while query symbol is ");
        push_str(&mut first, query_symbol);
        let mut details: Vec<String> = Vec::new();
        details.push(string_of(&first));
        if sibling_symbol_rows > 0 {
            let mut second: Vec<char> = Vec::new();
            push_str(&mut second, "contract_flow_1s has ");
            let n = u64_decimal(sibling_symbol_rows as u64);
            append_chars(&mut second, &n);
            push_str(&mut second, " sibling rows under ");
            push_str(&mut second, query_symbol);
            push_str(&mut second, "-like symbols/products");
            details.push(string_of(&second));
        }
        return verdict("upstream_no_raw_flow", "connector_requested_symbol_mismatch", details);
    }
    if total_trade_messages == 0 && exact_symbol_rows == 0 {
        return verdict(
            "upstream_no_raw_flow",
            "no_trade_ingest_activity",
            line("venue health reports zero parsed trade messages"),
        );
    }
    if total_trade_messages > 0 && !window_trades && exact_symbol_rows == 0 {
        return verdict(
            "upstream_no_raw_flow",
            "aggregator_not_producing_symbol_flow",
            line("trade messages exist but 5s/15s/60s flow windows are empty"),
        );
    }
    if window_trades && exact_symbol_rows == 0 {
        return verdict(
            "upstream_no_raw_flow",
            "contract_flow_not_persisted",
            line("rolling windows have trades but contract_flow_1s has no matching persisted rows"),
        );
    }
    if exact_symbol_rows > 0 {
        let mut text: Vec<char> = Vec::new();
        push_str(&mut text, "contract_flow_1s contains ");
        let n = u64_decimal(exact_symbol_rows as u64);
        append_chars(&mut text, &n);
        push_str(&mut text, " exact ");
        push_str(&mut text, query_symbol);
        push_str(&mut text, " rows in requested range");
        let mut details: Vec<String> = Vec::new();
        details.push(string_of(&text));
        return verdict("raw_flow_available", "raw_flow_present", details);
    }
    verdict(
        "upstream_no_raw_flow",
        "unknown",
        line("raw flow unavailable but no dominant reason inferred"),
    )
}

/// The latest rows as the latency view shows them.
pub struct ContractWhaleLatencyLatestDebug {
    pub count: usize,
    pub max_ts: Option<i64>,
    pub age_sec: i64,
    pub stale_count: usize,
}

/// The contract-event layer as the latency view shows it.
pub struct ContractWhaleLatencyLayerDebug {
    pub count: usize,
    pub max_event_ts: Option<i64>,
    pub lag_sec: i64,
    pub lag_vs_latest_sec: i64,
    pub cache_age_sec: i64,
    pub cache_ttl_sec: i64,
}

/// The final-events projection as the latency view shows it.
pub struct ContractWhaleLatencyProjectionDebug {
    pub active_count: usize,
    pub closed_count: usize,
    pub max_event_ts: Option<i64>,
    pub projection_lag_sec: i64,
    pub cache_age_sec: i64,
    pub cache_ttl_sec: i64,
    pub generated_at: Option<i64>,
}

/// The flow state as the latency view shows it.
pub struct ContractWhaleLatencyFlowDebug {
    pub updated_at: Option<i64>,
    pub flow_lag_sec: i64,
}

/// How far each layer of a symbol's pipeline is behind, and which one
/// holds the rest back.
pub struct ContractWhaleLatencyDebugResponse {
    pub symbol: String,
    pub range: String,
    pub server_time: i64,
    pub latest: ContractWhaleLatencyLatestDebug,
    pub contract_events: ContractWhaleLatencyLayerDebug,
    pub final_events_v2: ContractWhaleLatencyProjectionDebug,
    pub flow: ContractWhaleLatencyFlowDebug,
    pub diagnosis: ContractWhaleLatencyDiagnosis,
}

/// The newest time among the latest rows.
pub open spec fn newest_ts(items: Seq<PipelineLatestItemDebug>) -> Option<i64>
    decreases items.len(),
{
    if items.len() == 0 {
        None
    } else {
        max_opt(newest_ts(items.drop_last()), Some(items.last().ts))
    }
}

fn newest_ts_exec(items: &Vec<PipelineLatestItemDebug>) -> (r: Option<i64>)
    ensures
        r == newest_ts(items@),
{
    let ghost all = items@;
    let mut best: Option<i64> = None;
    let mut i: usize = 0;
    while i < items.len()
        invariant
            all == items@,
            i <= all.len(),
            best == newest_ts(all.take(i as int)),
        decreases items.len() - i,
    {
        proof {
            assert(all.take(i + 1).drop_last() =~= all.take(i as int));
            assert(all.take(i + 1).last() == all[i as int]);
        }
        best = max_option(best, Some(items[i].ts));
        i = i + 1;
    }
    proof {
        assert(all.take(i as int) =~= all);
    }
    best
}

/// The latency view of a symbol at `now`, from the latest rows' debug
/// view, the contract-event page, the final-events page and the flow
/// state's update time (zero when it was never updated): each layer's
/// newest time and lag, the projection's lag behind the latest rows (its
/// own lag when either side is empty), and the diagnosis.
pub fn latency_debug_response<I, E>(
    symbol: String,
    range: String,
    now: i64,
    latest: &PipelineLatestDebug,
    events: &ContractEventPage<I>,
    final_events: &FinalEventsV2Response<E>,
    flow_updated_at: i64,
) -> (r: ContractWhaleLatencyDebugResponse)
    ensures
        r.symbol == symbol,
        r.range == range,
        r.server_time == now,
        r.latest.count == latest.latest_count,
        r.latest.stale_count == latest.stale_count,
        r.latest.max_ts == newest_ts(latest.items@),
        r.latest.age_sec == match r.latest.max_ts {
            Some(t) => secs_after(now, t),
            None => 0,
        },
        r.contract_events.count == events.items@.len(),
        r.contract_events.max_event_ts == events.max_event_ts,
        r.contract_events.lag_sec == events.history_lag_sec,
        r.contract_events.lag_vs_latest_sec == events.latest_lag_sec,
        r.contract_events.cache_age_sec == events.cache_age_sec,
        r.contract_events.cache_ttl_sec == events.cache_ttl_sec,
        r.final_events_v2.active_count == final_events.active@.len(),
        r.final_events_v2.closed_count == final_events.closed@.len(),
        r.final_events_v2.max_event_ts == final_events.max_event_ts,
        r.final_events_v2.projection_lag_sec == match (r.latest.max_ts, final_events.max_event_ts) {
            (Some(l), Some(p)) => secs_after(l, p),
            _ => final_events.projection_lag_sec as int,
        },
        r.final_events_v2.cache_age_sec == final_events.cache_age_sec,
        r.final_events_v2.cache_ttl_sec == final_events.cache_ttl_sec,
        r.final_events_v2.generated_at == Some(final_events.generated_at),
        r.flow.updated_at == if flow_updated_at > 0 {
            Some(flow_updated_at)
        } else {
            None::<i64>
        },
        r.flow.flow_lag_sec == if flow_updated_at > 0 {
            secs_after(now, flow_updated_at)
        } else {
            0
        },
        (r.diagnosis.layer@, r.diagnosis.reason@) == latency_diagnosis(
            r.latest.max_ts,
            events.max_event_ts,
            final_events.max_event_ts,
            r.flow.updated_at,
            now,
        ),
{
    let latest_max_ts = newest_ts_exec(&latest.items);
    let latest_age_sec: i64 = match latest_max_ts {
        Some(t) => secs_after_exec(now, t),
        None => 0,
    };
    let flow_at: Option<i64> = if flow_updated_at > 0 {
        Some(flow_updated_at)
    } else {
        None
    };
    let flow_lag_sec: i64 = match flow_at {
        Some(t) => secs_after_exec(now, t),
        None => 0,
    };
    let projection_lag_sec: i64 = match (latest_max_ts, final_events.max_event_ts) {
        (Some(l), Some(p)) => secs_after_exec(l, p),
        _ => final_events.projection_lag_sec,
    };
    let diagnosis = diagnose_contract_whale_latency(
        latest_max_ts,
        events.max_event_ts,
        final_events.max_event_ts,
        flow_at,
        now,
    );
    ContractWhaleLatencyDebugResponse {
        symbol,
        range,
        server_time: now,
        latest: ContractWhaleLatencyLatestDebug {
            count: latest.latest_count,
            max_ts: latest_max_ts,
            age_sec: latest_age_sec,
            stale_count: latest.stale_count,
        },
        contract_events: ContractWhaleLatencyLayerDebug {
            count: events.items.len(),
            max_event_ts: events.max_event_ts,
            lag_sec: events.history_lag_sec,
            lag_vs_latest_sec: events.latest_lag_sec,
            cache_age_sec: events.cache_age_sec,
            cache_ttl_sec: events.cache_ttl_sec,
        },
        final_events_v2: ContractWhaleLatencyProjectionDebug {
            active_count: final_events.active.len(),
            closed_count: final_events.closed.len(),
            max_event_ts: final_events.max_event_ts,
            projection_lag_sec,
            cache_age_sec: final_events.cache_age_sec,
            cache_ttl_sec: final_events.cache_ttl_sec,
            generated_at: Some(final_events.generated_at),
        },
        flow: ContractWhaleLatencyFlowDebug { updated_at: flow_at, flow_lag_sec },
        diagnosis,
    }
}

} // verus!
