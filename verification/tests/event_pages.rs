use toxic_order_monitor::event_pages::{
    contract_event_page, contract_event_page_from_outcome, final_events_v2_page,
    final_events_v2_page_from_outcome, page_window, retention_protection, serve_contract_event_page,
    ContractEventProjectionValue, ProjectedEvent, SignalRef,
};
use toxic_order_monitor::projection::{ProjectionOutcome, ProjectionUnavailableReason};
use toxic_order_monitor::whale_query::ContractWhaleSeverity;
use toxic_order_monitor::whale_query::encode_contract_history_cursor;

fn row(ts: i64, id: &str) -> SignalRef {
    SignalRef { ts, id: id.to_string() }
}

fn event(name: &str, status: &str, is_visible: bool) -> ProjectedEvent<String> {
    ProjectedEvent { event: name.to_string(), status: status.to_string(), is_visible }
}

fn three_rows() -> Vec<SignalRef> {
    vec![row(9_000, "c"), row(8_000, "b"), row(7_000, "a")]
}

fn candidates() -> Vec<ProjectedEvent<String>> {
    vec![
        event("e1", "active", true),
        event("e2", "CLOSED", true),
        event("e3", "active", false),
        event("e4", "pending", true),
    ]
}

#[test]
fn page_window_reports_more_rows_with_cursor_of_last_kept_row() {
    let w = page_window(&three_rows(), 2);
    assert!(w.has_more);
    assert_eq!(w.next_cursor, Some(encode_contract_history_cursor(8_000, "b")));
    assert_eq!(w.last_event_ts, Some(8_000));
    assert_eq!(w.max_event_ts, Some(9_000));
}

#[test]
fn page_window_without_more_rows_has_no_cursor() {
    let w = page_window(&three_rows(), 3);
    assert!(!w.has_more);
    assert_eq!(w.next_cursor, None);
    assert_eq!(w.last_event_ts, Some(7_000));
    assert_eq!(w.max_event_ts, Some(9_000));
    let empty = page_window(&Vec::new(), 5);
    assert!(!empty.has_more);
    assert_eq!(empty.last_event_ts, None);
    assert_eq!(empty.max_event_ts, None);
}

#[test]
fn page_window_of_zero_limit_keeps_nothing() {
    let w = page_window(&three_rows(), 0);
    assert!(w.has_more);
    assert_eq!(w.next_cursor, None);
    assert_eq!(w.last_event_ts, None);
    assert_eq!(w.max_event_ts, None);
}

#[test]
fn final_events_page_splits_visible_events_by_status() {
    let page = final_events_v2_page(2, "24h".to_string(), 12_500, &three_rows(), candidates(), None);
    assert_eq!(page.active, vec!["e1".to_string(), "e4".to_string()]);
    assert_eq!(page.closed, vec!["e2".to_string()]);
    assert_eq!(page.data_state, "fresh");
    assert!(page.last_known_data_available);
    assert!(page.has_more);
    assert_eq!(page.limit, 2);
    assert_eq!(page.range, "24h");
    assert_eq!(page.server_time, 12_500);
    assert_eq!(page.generated_at, 12_500);
    assert_eq!(page.cache_age_sec, 0);
    assert_eq!(page.cache_ttl_sec, 30);
    assert_eq!(page.projection_lag_sec, 3);
    assert_eq!(page.timeline.source, "contract_whale_signals");
    assert_eq!(page.timeline.event_ts, Some(9_000));
    assert_eq!(page.timeline.processed_ts, Some(12_500));
    assert!(!page.degraded);
    assert_eq!(page.error_code, None);
}

#[test]
fn final_events_page_status_filter_and_empty_page() {
    let page =
        final_events_v2_page(5, "24h".to_string(), 1_000, &Vec::new(), candidates(), Some("closed"));
    assert!(page.active.is_empty());
    assert_eq!(page.closed, vec!["e2".to_string()]);
    assert_eq!(page.data_state, "empty");
    assert!(!page.last_known_data_available);
    assert_eq!(page.projection_lag_sec, 0);
    assert_eq!(page.max_event_ts, None);
}

#[test]
fn contract_event_page_shows_hidden_events_only_when_asked() {
    let shown = contract_event_page(
        2,
        "7d".to_string(),
        20_000,
        &three_rows(),
        candidates(),
        Some("active"),
        false,
        Some(15_000),
        Some(11_000),
    );
    assert_eq!(shown.items, vec!["e1".to_string()]);
    assert_eq!(shown.data_state, "fresh");
    assert_eq!(shown.history_lag_sec, 11);
    assert_eq!(shown.cache_age_sec, 5);
    assert_eq!(shown.latest_lag_sec, 2);
    assert_eq!(shown.cache_ttl_sec, 5);
    assert_eq!(shown.max_persisted_at, Some(15_000));
    assert_eq!(shown.timeline.processed_ts, Some(15_000));
    assert_eq!(shown.timeline.persisted_ts, Some(15_000));

    let all = contract_event_page(
        2,
        "7d".to_string(),
        20_000,
        &three_rows(),
        candidates(),
        Some("active"),
        true,
        None,
        None,
    );
    assert_eq!(all.items, vec!["e1".to_string(), "e3".to_string()]);
    assert_eq!(all.cache_age_sec, 11);
    assert_eq!(all.latest_lag_sec, 0);
    assert_eq!(all.timeline.processed_ts, Some(9_000));
}

#[test]
fn contract_event_page_of_no_rows_is_empty() {
    let page = contract_event_page(
        10,
        "7d".to_string(),
        5_000,
        &Vec::new(),
        Vec::<ProjectedEvent<String>>::new(),
        None,
        false,
        None,
        Some(4_000),
    );
    assert!(page.items.is_empty());
    assert_eq!(page.data_state, "empty");
    assert!(!page.last_known_data_available);
    assert_eq!(page.history_lag_sec, 0);
    assert_eq!(page.latest_lag_sec, 0);
    assert!(!page.has_more);
    assert_eq!(page.next_cursor, None);
}

#[test]
fn serving_a_stale_contract_page_marks_it_degraded() {
    let page = contract_event_page(
        2,
        "7d".to_string(),
        20_000,
        &three_rows(),
        candidates(),
        None,
        false,
        None,
        None,
    );
    let served = serve_contract_event_page(page, 42, 99_000, Some(ProjectionUnavailableReason::Timeout));
    assert_eq!(served.server_time, 99_000);
    assert_eq!(served.cache_age_sec, 42);
    assert_eq!(served.cache_ttl_sec, 30);
    assert_eq!(served.timeline.served_ts, 99_000);
    assert_eq!(served.data_state, "stale");
    assert!(served.degraded);
    assert_eq!(served.error_code.as_deref(), Some("contract_projection_timeout"));
    assert!(served.last_known_data_available);
    assert_eq!(served.history_lag_sec, 11);
}

#[test]
fn outcomes_serve_their_own_kind_of_page() {
    let page = contract_event_page(2, "7d".to_string(), 20_000, &three_rows(), candidates(), None, false, None, None);
    let outcome: ProjectionOutcome<ContractEventProjectionValue<String, String>> = ProjectionOutcome::Fresh {
        value: ContractEventProjectionValue::ContractEvents(page),
        cache_age_nanos: 3_500_000_000,
        completed_at_ms: 0,
    };
    match contract_event_page_from_outcome(outcome, 50_000) {
        Ok(p) => {
            assert_eq!(p.cache_age_sec, 3);
            assert_eq!(p.server_time, 50_000);
            assert!(!p.degraded);
            assert_eq!(p.error_code, None);
        }
        Err(_) => panic!("a contract page is served"),
    }

    let finals = final_events_v2_page(2, "24h".to_string(), 12_500, &three_rows(), candidates(), None);
    let wrong: ProjectionOutcome<ContractEventProjectionValue<String, String>> = ProjectionOutcome::Stale {
        value: ContractEventProjectionValue::FinalEventsV2(finals),
        cache_age_nanos: 0,
        completed_at_ms: 0,
        reason: ProjectionUnavailableReason::Busy,
    };
    match contract_event_page_from_outcome(wrong, 50_000) {
        Ok(_) => panic!("a final-events value is refused"),
        Err(e) => {
            assert_eq!(e.reason, ProjectionUnavailableReason::Failed);
            assert_eq!(e.retry_after_ms, 2_000);
        }
    }

    let finals = final_events_v2_page(2, "24h".to_string(), 12_500, &three_rows(), candidates(), None);
    let stale: ProjectionOutcome<ContractEventProjectionValue<String, String>> = ProjectionOutcome::Stale {
        value: ContractEventProjectionValue::FinalEventsV2(finals),
        cache_age_nanos: 61_000_000_000,
        completed_at_ms: 0,
        reason: ProjectionUnavailableReason::Busy,
    };
    match final_events_v2_page_from_outcome(stale, 19_000) {
        Ok(p) => {
            assert_eq!(p.cache_age_sec, 61);
            assert_eq!(p.projection_lag_sec, 10);
            assert!(p.degraded);
            assert_eq!(p.data_state, "stale");
            assert_eq!(p.error_code.as_deref(), Some("contract_projection_busy"));
        }
        Err(_) => panic!("a final-events page is served"),
    }
}

#[test]
fn retention_protects_s_severity_high_impact_and_large_net_volume() {
    let s = |a: bool, b: Option<&str>| (a, b.map(str::to_string));
    assert_eq!(retention_protection(ContractWhaleSeverity::S, Some("A"), true), s(true, Some("severity_s")));
    assert_eq!(retention_protection(ContractWhaleSeverity::High, Some(" s "), true), s(true, Some("impact_s")));
    assert_eq!(retention_protection(ContractWhaleSeverity::High, Some("a"), false), s(true, Some("impact_a")));
    assert_eq!(
        retention_protection(ContractWhaleSeverity::Medium, Some("B"), true),
        s(true, Some("net_volume_ge_500_btc"))
    );
    assert_eq!(retention_protection(ContractWhaleSeverity::Calm, Some("  "), false), s(false, None));
    assert_eq!(retention_protection(ContractWhaleSeverity::Critical, None, false), s(false, None));
}

#[test]
fn final_page_splits_exactly_the_visible_events_of_a_contract_page() {
    for filter in [None, Some("active"), Some("closed"), Some("other")] {
        let finals = final_events_v2_page(2, "24h".to_string(), 1, &three_rows(), candidates(), filter);
        let page = contract_event_page(2, "7d".to_string(), 1, &three_rows(), candidates(), filter, false, None, None);
        assert_eq!(finals.active.len() + finals.closed.len(), page.items.len());
    }
}
