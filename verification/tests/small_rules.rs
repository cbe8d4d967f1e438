use toxic_order_monitor::alerts::{first_summary_line, ToxicSeverity};
use toxic_order_monitor::alt_contract::{history_query, BinanceAltContractApiQuery};
use toxic_order_monitor::projection::{
    projection_type_mismatch, stale_outcome, CachedProjection, ProjectionOutcome,
    ProjectionUnavailableReason,
};
use toxic_order_monitor::routes_misc::{
    dev_test_alert_check, operator_refusal, shadow_window, token_error_status, valid_report_id,
    DevTestAlertSeverity, DevTestSidecarAlertRequest, ShadowQuery, TokenWatchError,
};
use toxic_order_monitor::whale_query::{cursor_offset, ContractHistoryCursor};
use toxic_order_monitor::whale_stats::{health_connected, VenueConnectionStatus};

#[test]
fn summary_line_is_the_first_line_that_is_not_blank() {
    assert_eq!(first_summary_line("\n  \r\n  BTC Perp Toxic Flow Alert \nmore").as_deref(), Some("BTC Perp Toxic Flow Alert"));
    assert_eq!(first_summary_line("one").as_deref(), Some("one"));
    assert_eq!(first_summary_line(" \n\t\n"), None);
    assert_eq!(first_summary_line(""), None);
}

#[test]
fn report_ids_cannot_escape_the_report_directory() {
    assert!(valid_report_id("calibration-2024-01"));
    assert!(!valid_report_id("report-1"));
    assert!(!valid_report_id("calibration-../x"));
    assert!(!valid_report_id("calibration-a\\b"));
    assert!(!valid_report_id("calibration-a/b"));
}

#[test]
fn cursor_offsets_and_connected_venues() {
    assert_eq!(cursor_offset(&ContractHistoryCursor::Offset(4)), Some(4));
    assert_eq!(
        cursor_offset(&ContractHistoryCursor::Positioned { ts: 1, signal_id: "x".to_string() }),
        None
    );
    assert!(health_connected(false, true, VenueConnectionStatus::Disconnected));
    assert!(health_connected(false, false, VenueConnectionStatus::Connected));
    assert!(!health_connected(false, false, VenueConnectionStatus::Reconnecting));
}

#[test]
fn stale_and_mismatched_projections() {
    match stale_outcome(
        CachedProjection { completed_at: 1, completed_at_ms: 2, value: "v" },
        30,
        ProjectionUnavailableReason::Busy,
    ) {
        ProjectionOutcome::Stale { value, cache_age_nanos, completed_at_ms, reason } => {
            assert_eq!((value, cache_age_nanos, completed_at_ms), ("v", 30, 2));
            assert_eq!(reason, ProjectionUnavailableReason::Busy);
        }
        _ => panic!("expected a stale outcome"),
    }
    let m = projection_type_mismatch();
    assert_eq!(m.reason, ProjectionUnavailableReason::Failed);
    assert_eq!(m.retry_after_ms, 2_000);
}

#[test]
fn shadow_window_clamps_look_back_and_limit() {
    let w = shadow_window(&ShadowQuery { symbol: None, lookback_min: Some(5), limit: Some(0) }, 10_000_000);
    assert_eq!((w.lookback_min, w.limit, w.from_ms), (15, 1, 10_000_000 - 900_000));
    let d = shadow_window(&ShadowQuery { symbol: None, lookback_min: None, limit: None }, 0);
    assert_eq!((d.lookback_min, d.limit, d.from_ms), (60, 50, -3_600_000));
}

#[test]
fn test_alert_requests_are_checked() {
    let body = DevTestSidecarAlertRequest {
        severity: DevTestAlertSeverity::Critical,
        venue: "okx".to_string(),
        symbol: " BTCUSDT ".to_string(),
        dedupe_suffix: " a ".to_string(),
    };
    assert_eq!(dev_test_alert_check(false, &body).err(), Some((404, "dev_test_alerts_disabled")));
    let plan = dev_test_alert_check(true, &body).ok().unwrap();
    assert_eq!(plan.symbol, "BTCUSDT");
    assert_eq!(plan.dedupe_suffix, "a");
    assert!(matches!(plan.severity, ToxicSeverity::Alert));
    let blank = DevTestSidecarAlertRequest { symbol: "  ".to_string(), ..body };
    assert_eq!(
        dev_test_alert_check(true, &blank).err(),
        Some((400, "symbol_and_dedupe_suffix_are_required"))
    );
    assert_eq!(token_error_status(TokenWatchError::MaxActiveTokensReached), 409);
    assert_eq!(operator_refusal(false, true), Some((403, "operator_token_missing")));
    assert_eq!(operator_refusal(true, false), Some((401, "operator_token_required")));
    assert_eq!(operator_refusal(true, true), None);
}

fn alt_query() -> BinanceAltContractApiQuery {
    BinanceAltContractApiQuery {
        symbol: None,
        limit: None,
        severity: None,
        signal_type_alias: None,
        signal_type: None,
        direction: None,
        would_send: None,
        liquidation: None,
        liquidation_driven: None,
        tier: None,
        min_build_score: None,
    }
}

#[test]
fn alt_contract_history_query_reads_aliases() {
    let q = history_query(&alt_query()).ok().unwrap();
    assert!(q.symbol.is_none());
    let mut bad = alt_query();
    bad.min_build_score = Some("300".to_string());
    assert!(history_query(&bad).is_err());
}
