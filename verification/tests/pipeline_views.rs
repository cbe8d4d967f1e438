use toxic_order_monitor::event_pages::{
    contract_event_page, final_events_v2_page, ProjectedEvent, SignalRef,
};
use toxic_order_monitor::pipeline_debug::{
    build_pipeline_latest_debug, build_raw_flow_diagnosis, detector_window_timestamps,
    latency_debug_response, diagnose_contract_whale_latency,
    stale_debug_item, FlowBucketRef, LatestRowFacts,
};

fn diag(
    latest: Option<i64>,
    history: Option<i64>,
    fin: Option<i64>,
    flow: Option<i64>,
    now: i64,
) -> (String, String) {
    let d = diagnose_contract_whale_latency(latest, history, fin, flow, now);
    (d.layer, d.reason)
}

fn pair(a: &str, b: &str) -> (String, String) {
    (a.to_string(), b.to_string())
}

#[test]
fn latency_diagnosis_names_the_lagging_layer() {
    assert_eq!(diag(None, Some(1), None, None, 0), pair("ok", "no_recent_signal"));
    assert_eq!(diag(Some(100_000), None, None, None, 0), pair("history", "latest_ahead_of_history"));
    assert_eq!(
        diag(Some(100_000), Some(84_999), None, None, 0),
        pair("history", "history_persist_lagging_latest")
    );
    assert_eq!(
        diag(Some(100_000), Some(85_000), Some(69_999), None, 0),
        pair("final_events_v2", "projection_lagging_history")
    );
    assert_eq!(
        diag(Some(100_000), Some(90_000), Some(80_000), Some(100_000), 130_001),
        pair("flow", "flow_state_stale")
    );
    assert_eq!(
        diag(Some(100_000), Some(90_000), Some(80_000), Some(100_000), 130_000),
        pair("ok", "in_sync")
    );
}

fn row(id: &str, event_id: &str, ts: i64) -> LatestRowFacts {
    LatestRowFacts { id: id.to_string(), event_id: event_id.to_string(), ts }
}

#[test]
fn stale_item_reports_age_and_reason_for_range() {
    let item = stale_debug_item(&row("sig-1", "", 10_000), Some(20_000), Some(" 1H "), 75_500);
    assert_eq!(item.event_id, "sig-1");
    assert_eq!(item.age_sec, 65);
    assert!(item.is_stale);
    assert_eq!(item.stale_reason.as_deref(), Some("older_than_1h"));
    let fresh = stale_debug_item(&row("sig-2", "evt-2", 30_000), Some(20_000), None, 10_000);
    assert_eq!(fresh.event_id, "evt-2");
    assert_eq!(fresh.age_sec, 0);
    assert!(!fresh.is_stale);
    assert_eq!(fresh.stale_reason, None);
}

#[test]
fn latest_debug_counts_stale_rows_and_greatest_age() {
    let rows = vec![row("a", "", 50_000), row("b", "", 5_000), row("c", "", 40_000)];
    let d = build_pipeline_latest_debug(&rows, Some(30_000), None, 60_000);
    assert_eq!(d.latest_count, 3);
    assert_eq!(d.stale_count, 1);
    assert_eq!(d.max_age_sec, 55);
    assert_eq!(d.items.len(), 3);
    assert_eq!(d.items[1].stale_reason.as_deref(), Some("older_than_24h"));
    let empty = build_pipeline_latest_debug(&Vec::new(), Some(30_000), None, 60_000);
    assert_eq!(empty.latest_count, 0);
    assert_eq!(empty.stale_count, 0);
    assert_eq!(empty.max_age_sec, 0);
}

fn bucket(symbol: &str, ts: i64) -> FlowBucketRef {
    FlowBucketRef { symbol: symbol.to_string(), ts_bucket: ts }
}

#[test]
fn detector_window_timestamps_are_sorted_and_distinct() {
    let buckets = vec![
        bucket("BTC", 3_000),
        bucket("btc", 1_000),
        bucket("ETH", 2_000),
        bucket("BTC", 3_000),
        bucket("Btc", 2_000),
        bucket("BTC", 9_000),
        bucket("BTC", 500),
    ];
    assert_eq!(detector_window_timestamps(&buckets, "btc", 1_000, 3_000), vec![1_000, 2_000, 3_000]);
    assert!(detector_window_timestamps(&buckets, "SOL", 0, 10_000).is_empty());
}

fn diagnose(mismatch: bool, messages: u64, windows: &[u64], exact: usize, sibling: usize) -> (String, String, Vec<String>) {
    let d = build_raw_flow_diagnosis("BTCUSDT", "ETH", mismatch, messages, &windows.to_vec(), exact, sibling);
    (d.status, d.primary_reason, d.details)
}

#[test]
fn raw_flow_diagnosis_names_the_first_missing_stage() {
    let (status, reason, details) = diagnose(true, 5, &[1], 0, 12);
    assert_eq!(status, "upstream_no_raw_flow");
    assert_eq!(reason, "connector_requested_symbol_mismatch");
    assert_eq!(
        details,
        vec![
            "connector requested BTCUSDT while query symbol is ETH".to_string(),
            "contract_flow_1s has 12 sibling rows under ETH-like symbols/products".to_string(),
        ]
    );
    assert_eq!(diagnose(true, 5, &[1], 0, 0).2.len(), 1);
    assert_eq!(diagnose(false, 0, &[], 0, 0).1, "no_trade_ingest_activity");
    assert_eq!(diagnose(false, 3, &[0, 0], 0, 0).1, "aggregator_not_producing_symbol_flow");
    assert_eq!(diagnose(false, 3, &[0, 4], 0, 0).1, "contract_flow_not_persisted");
    let (status, reason, details) = diagnose(true, 3, &[0], 250, 0);
    assert_eq!(status, "raw_flow_available");
    assert_eq!(reason, "raw_flow_present");
    assert_eq!(details, vec!["contract_flow_1s contains 250 exact ETH rows in requested range".to_string()]);
}

#[test]
fn latency_view_reports_each_layer_and_the_lagging_one() {
    let now = 200_000;
    let latest = build_pipeline_latest_debug(
        &vec![row("a", "", 150_000), row("b", "", 120_000)],
        None,
        None,
        now,
    );
    let rows = vec![SignalRef { ts: 130_000, id: "h".to_string() }];
    let events = contract_event_page(
        100,
        "24h".to_string(),
        now,
        &rows,
        vec![ProjectedEvent { event: 1u8, status: "active".to_string(), is_visible: true }],
        None,
        true,
        None,
        Some(150_000),
    );
    let finals = final_events_v2_page(
        100,
        "24h".to_string(),
        now,
        &rows,
        Vec::<ProjectedEvent<u8>>::new(),
        None,
    );
    let view = latency_debug_response("BTC".to_string(), "24h".to_string(), now, &latest, &events, &finals, 0);
    assert_eq!(view.latest.count, 2);
    assert_eq!(view.latest.max_ts, Some(150_000));
    assert_eq!(view.latest.age_sec, 50);
    assert_eq!(view.contract_events.count, 1);
    assert_eq!(view.contract_events.max_event_ts, Some(130_000));
    assert_eq!(view.contract_events.lag_sec, 70);
    assert_eq!(view.contract_events.lag_vs_latest_sec, 20);
    assert_eq!(view.final_events_v2.projection_lag_sec, 20);
    assert_eq!(view.final_events_v2.generated_at, Some(now));
    assert_eq!(view.flow.updated_at, None);
    assert_eq!(view.flow.flow_lag_sec, 0);
    assert_eq!(view.diagnosis.layer, "history");
    assert_eq!(view.diagnosis.reason, "history_persist_lagging_latest");
}
