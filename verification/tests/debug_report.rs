use toxic_order_monitor::debug_counts::{
    contract_event_debug_counts, debug_counts_request, final_events_debug_counts,
    unavailable_debug_counts, DebugCountsRequest,
};
use toxic_order_monitor::events::{DebugDbCounts, LatestSignalRef, ProjectedCandidate};
use toxic_order_monitor::whale_query::ContractWhaleQuery;

fn blank_query() -> ContractWhaleQuery {
    ContractWhaleQuery {
        limit: None,
        symbol: None,
        severity: None,
        signal_type: None,
        direction: None,
        discord_sent: None,
        window_sec: None,
        exchange: None,
        net_direction: None,
        status: None,
        range: None,
        cursor: None,
        from: None,
        to: None,
        offset: None,
        include_hidden: None,
        hide_stale: None,
    }
}

#[test]
fn debug_request_defaults_to_btc_a_day_and_five_hundred() {
    let r = debug_counts_request(&blank_query());
    assert_eq!(r.symbol, "BTC");
    assert_eq!(r.range, "24h");
    assert_eq!(r.limit, 500);
    let mut q = blank_query();
    q.symbol = Some("eth".to_string());
    q.range = Some("7d".to_string());
    q.limit = Some("20".to_string());
    let r = debug_counts_request(&q);
    assert_eq!(r.symbol, "ETH");
    assert_eq!(r.range, "7d");
    assert_eq!(r.limit, 20);
    q.limit = Some("many".to_string());
    assert_eq!(debug_counts_request(&q).limit, 500);
}

fn candidate(id: &str, status: &str, visible: bool) -> ProjectedCandidate {
    ProjectedCandidate {
        event_id: id.to_string(),
        status: status.to_string(),
        source_signal_id: format!("{id}-src"),
        source_signal_ids: Vec::new(),
        is_visible: visible,
        hidden_reason: if visible { None } else { Some("bad_quality".to_string()) },
    }
}

fn request() -> DebugCountsRequest {
    DebugCountsRequest { symbol: "BTC".to_string(), range: "24h".to_string(), limit: 100 }
}

#[test]
fn final_event_counts_read_visible_statuses() {
    let cs = vec![
        candidate("a", "ACTIVE", true),
        candidate("b", "closed", true),
        candidate("c", "closed", false),
        candidate("d", "pending", true),
    ];
    let f = final_events_debug_counts(&cs);
    assert_eq!(f.active_count, 1);
    assert_eq!(f.closed_count, 1);
}

#[test]
fn debug_report_counts_each_stage() {
    let cs = vec![candidate("a", "active", true), candidate("b", "closed", false)];
    let latest = vec![LatestSignalRef {
        id: "a-src".to_string(),
        event_id: String::new(),
        symbol: "BTC".to_string(),
        ts: 5,
    }];
    let db = DebugDbCounts {
        contract_whale_signals_total_24h: 9,
        contract_whale_signals_btc_24h: 7,
        oldest_ts: Some(1),
        newest_ts: Some(5),
    };
    let r = contract_event_debug_counts(request(), 123, db, 2, true, false, false, &cs, &latest, None, None);
    assert_eq!(r.generated_at, "123");
    assert_eq!(r.api_query.matched_before_filter, 7);
    assert_eq!(r.api_query.matched_after_range_filter, 2);
    assert_eq!(r.api_query.matched_after_severity_filter, Some(2));
    assert_eq!(r.api_query.matched_after_window_filter, None);
    assert_eq!(r.api_query.returned_items, 1);
    assert_eq!(r.visibility.hidden_count, 1);
    assert_eq!(r.latest.latest_symbols, vec!["BTC".to_string()]);
    assert_eq!(r.final_events_v2.active_count, 1);
    assert_eq!(r.latest_vs_history.len(), 1);
    assert!(r.latest_vs_history[0].exists_in_history);
    assert_eq!(r.final_events_projection.source, "contract_whale_signals");
    assert_eq!(r.final_events_projection.raw_signals, 2);
    assert_eq!(r.error, None);
}

#[test]
fn unreadable_query_gives_an_empty_report_with_the_error() {
    let r = unavailable_debug_counts(request(), -42, "query_failed");
    assert_eq!(r.generated_at, "-42");
    assert_eq!(r.api_query.limit, 100);
    assert_eq!(r.api_query.returned_items, 0);
    assert!(r.latest_vs_history.is_empty());
    assert_eq!(r.error.as_deref(), Some("query_failed"));
}
