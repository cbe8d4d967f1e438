use toxic_order_monitor::alerts::{
    alert_key, begin_alert_cycle, begin_runtime_acceptance_test, finish_alert_cycle,
    finish_runtime_acceptance_test, parse_sidecar_enabled, runtime_acceptance_dedupe_key,
    should_attempt_send, sidecar_severity, AcceptanceStep, AlertCycleStep, AlertGateConfig,
    AlertState, DevTestSidecarAlertInput, ToxicAlertIdentity, ToxicDirection, ToxicFlowSidecarWriter,
    ToxicGateFacts, ToxicSeverity,
};
use toxic_order_monitor::deduper::AlertDeduper;
use toxic_order_monitor::formatter::{format_alert_message, format_with_commas, AlertMessage};

fn gate() -> AlertGateConfig {
    AlertGateConfig {
        dedup_window_ms: 60_000,
        min_severity: ToxicSeverity::Warning,
        require_cross_venue: true,
        require_markout: false,
        require_liquidity_drain: false,
    }
}

fn facts(severity: ToxicSeverity) -> ToxicGateFacts {
    ToxicGateFacts {
        has_flow: true,
        stale_venue_count: 0,
        direction: ToxicDirection::Buy,
        severity,
        volume_reaches_threshold: true,
        cross_venue_confirmed: true,
        markout_confirmed: false,
        liquidity_thin: false,
    }
}

fn identity() -> ToxicAlertIdentity {
    ToxicAlertIdentity {
        symbol: "BTCUSDT".to_string(),
        direction: ToxicDirection::Sell,
        window_ms: 5000,
        leader_venue: Some("binance".to_string()),
        severity_label: "ALERT".to_string(),
    }
}

#[test]
fn alert_key_joins_symbol_direction_window_venue_and_severity() {
    assert_eq!(alert_key(&identity()), "BTCUSDT:sell:5000:binance:ALERT");
    let mut id = identity();
    id.leader_venue = None;
    assert_eq!(alert_key(&id), "BTCUSDT:sell:5000:unknown:ALERT");
}

#[test]
fn alert_filter_fails_closed_on_stale_or_neutral_or_weak_events() {
    let g = gate();
    assert!(should_attempt_send(&g, &facts(ToxicSeverity::Alert)));
    let mut f = facts(ToxicSeverity::Alert);
    f.stale_venue_count = 1;
    assert!(!should_attempt_send(&g, &f));
    let mut f = facts(ToxicSeverity::Alert);
    f.has_flow = false;
    assert!(!should_attempt_send(&g, &f));
    let mut f = facts(ToxicSeverity::Alert);
    f.direction = ToxicDirection::Neutral;
    assert!(!should_attempt_send(&g, &f));
    assert!(!should_attempt_send(&g, &facts(ToxicSeverity::Watch)));
    let mut f = facts(ToxicSeverity::Alert);
    f.volume_reaches_threshold = false;
    assert!(!should_attempt_send(&g, &f));
}

#[test]
fn extreme_events_skip_the_cross_venue_requirement() {
    let g = gate();
    let mut f = facts(ToxicSeverity::Alert);
    f.cross_venue_confirmed = false;
    assert!(!should_attempt_send(&g, &f));
    let mut f = facts(ToxicSeverity::Extreme);
    f.cross_venue_confirmed = false;
    assert!(should_attempt_send(&g, &f));
}

#[test]
fn alert_cycle_delivers_once_then_suppresses_the_repeat() {
    let g = gate();
    let id = identity();
    let f = facts(ToxicSeverity::Alert);
    let mut state = AlertState::new(true);
    let mut deduper = AlertDeduper::new(60_000);
    let step = begin_alert_cycle(&mut state, &mut deduper, &g, Some((&id, &f)), true, false, 1_000);
    let key = match step {
        AlertCycleStep::Deliver(k) => k,
        AlertCycleStep::Done => panic!("expected a delivery"),
    };
    assert_eq!(key, "BTCUSDT:sell:5000:binance:ALERT");
    finish_alert_cycle(&mut state, &mut deduper, &key, 1_000, true, None, None);
    assert_eq!(state.sent_count, 1);
    assert_eq!(state.last_sent_ts, Some(1_000));
    assert_eq!(state.last_checked_ts, Some(1_000));

    let again = begin_alert_cycle(&mut state, &mut deduper, &g, Some((&id, &f)), true, false, 2_000);
    assert!(matches!(again, AlertCycleStep::Done));
    assert_eq!(state.suppressed_count, 1);
    assert_eq!(state.last_suppressed_ts, Some(2_000));

    let later = begin_alert_cycle(&mut state, &mut deduper, &g, Some((&id, &f)), true, false, 70_000);
    assert!(matches!(later, AlertCycleStep::Deliver(_)));
}

#[test]
fn alert_cycle_without_event_or_channel_delivers_nothing() {
    let g = gate();
    let id = identity();
    let f = facts(ToxicSeverity::Alert);
    let mut state = AlertState::new(false);
    let mut deduper = AlertDeduper::new(60_000);
    let none = begin_alert_cycle(&mut state, &mut deduper, &g, None, false, false, 5);
    assert!(matches!(none, AlertCycleStep::Done));
    assert_eq!(state.last_checked_ts, Some(5));
    assert_eq!(state.suppressed_count, 0);
    let silent = begin_alert_cycle(&mut state, &mut deduper, &g, Some((&id, &f)), false, false, 6);
    assert!(matches!(silent, AlertCycleStep::Done));
    assert_eq!(state.suppressed_count, 0);
}

#[test]
fn failed_delivery_keeps_the_raw_telegram_error() {
    let mut state = AlertState::new(true);
    let mut deduper = AlertDeduper::new(1_000);
    finish_alert_cycle(&mut state, &mut deduper, "k", 10, false, Some("timeout".to_string()), None);
    assert_eq!(state.last_error.as_deref(), Some("timeout"));
    assert_eq!(state.sent_count, 0);
    finish_alert_cycle(&mut state, &mut deduper, "k", 11, true, None, Some("disk".to_string()));
    assert_eq!(state.last_error.as_deref(), Some("sidecar: disk"));
    assert_eq!(state.sent_count, 1);
}

fn acceptance_input() -> DevTestSidecarAlertInput {
    DevTestSidecarAlertInput {
        severity: ToxicSeverity::Warning,
        venue: "okx".to_string(),
        symbol: " BTCUSDT ".to_string(),
        dedupe_suffix: " run1 ".to_string(),
    }
}

#[test]
fn acceptance_key_trims_and_lowercases() {
    assert_eq!(
        runtime_acceptance_dedupe_key(&acceptance_input(), "WARNING"),
        "runtime_acceptance_test:okx:BTCUSDT:warning:run1"
    );
}

#[test]
fn acceptance_test_writes_once_then_reports_deduplicated() {
    let input = acceptance_input();
    let mut state = AlertState::new(false);
    let mut deduper = AlertDeduper::new(60_000);
    let step = begin_runtime_acceptance_test(&mut state, &mut deduper, &input, "WARNING", true, 100);
    let key = match step {
        AcceptanceStep::Write(k) => k,
        _ => panic!("expected a write"),
    };
    let result = finish_runtime_acceptance_test(&mut state, &mut deduper, key, 100);
    assert!(result.sidecar_written);
    assert!(!result.deduped);
    let again = begin_runtime_acceptance_test(&mut state, &mut deduper, &input, "WARNING", true, 200);
    match again {
        AcceptanceStep::Deduped(r) => {
            assert!(r.deduped);
            assert!(!r.sidecar_written);
            assert_eq!(r.dedupe_key, "runtime_acceptance_test:okx:BTCUSDT:warning:run1");
        }
        _ => panic!("expected deduplication"),
    }
}

#[test]
fn acceptance_test_without_sidecar_records_the_error() {
    let mut state = AlertState::new(false);
    let mut deduper = AlertDeduper::new(60_000);
    let step =
        begin_runtime_acceptance_test(&mut state, &mut deduper, &acceptance_input(), "Watch", false, 1);
    assert!(matches!(step, AcceptanceStep::SidecarDisabled));
    assert_eq!(state.last_error.as_deref(), Some("sidecar_disabled_or_path_missing"));
}

#[test]
fn sidecar_severity_has_three_levels() {
    assert_eq!(sidecar_severity(ToxicSeverity::Extreme), "critical");
    assert_eq!(sidecar_severity(ToxicSeverity::Alert), "critical");
    assert_eq!(sidecar_severity(ToxicSeverity::Warning), "warning");
    assert_eq!(sidecar_severity(ToxicSeverity::Watch), "info");
    assert_eq!(sidecar_severity(ToxicSeverity::Normal), "info");
}

#[test]
fn sidecar_flag_and_writer_configuration() {
    assert!(parse_sidecar_enabled(Some("true")));
    assert!(!parse_sidecar_enabled(Some("off")));
    let w = ToxicFlowSidecarWriter::new(true, Some("/tmp/events.jsonl".to_string()));
    assert!(w.enabled());
    assert_eq!(w.target(), Some("/tmp/events.jsonl"));
    assert!(!ToxicFlowSidecarWriter::disabled().enabled());
}

#[test]
fn numbers_are_grouped_by_thousands_and_trimmed() {
    assert_eq!(format_with_commas("1234567.50"), "1,234,567.5");
    assert_eq!(format_with_commas("-1234.00"), "-1,234");
    assert_eq!(format_with_commas("12.30"), "12.3");
    assert_eq!(format_with_commas("999.99"), "999.99");
    assert_eq!(format_with_commas("1000.0"), "1,000");
    assert_eq!(format_with_commas("0.00"), "0");
    assert_eq!(format_with_commas("123456"), "123,456");
}

fn message(reasons: usize) -> AlertMessage {
    AlertMessage {
        severity_label: "ALERT".to_string(),
        direction: ToxicDirection::Buy,
        toxic_volume_btc: "1234.50".to_string(),
        threshold_btc: "100.00".to_string(),
        window_ms: 5000,
        leader_venue: Some("binance".to_string()),
        aggressive_buy_btc: "1500.25".to_string(),
        aggressive_sell_btc: "265.75".to_string(),
        net_flow_negative: false,
        net_flow_abs_btc: "1234.50".to_string(),
        imbalance_ratio_pct: "69.9".to_string(),
        toxic_ratio_pct: "42.0".to_string(),
        markout_1s_bps: Some("+1.5".to_string()),
        markout_5s_bps: None,
        sweep_detected: true,
        ask_thin: true,
        bid_thin: false,
        spread_widened: false,
        cross_venue_confirmed: true,
        active_venues: 3,
        reason_codes: (0..reasons).map(|i| format!("R{i}")).collect(),
    }
}

#[test]
fn alert_message_is_laid_out_line_by_line() {
    let text = format_alert_message(&message(2));
    let expected = "BTC Perp Toxic Flow Alert\n\nSeverity: ALERT\nDirection: BUY TOXIC\n\
Toxic Volume: 1,234.5 BTC\nThreshold: 100 BTC\nWindow: 5s\nLeader Venue: BINANCE\n\nFlow:\n\
Aggressive Buy: 1,500.25 BTC\nAggressive Sell: 265.75 BTC\nNet Flow: +1,234.5 BTC\n\
Imbalance Ratio: 69.9%\nToxic Ratio: 42%\n\nMarkout:\n1s: +1.5 bps\n5s: n/a bps\n\n\
Liquidity:\nSweep: true\nAsk Thin: true\nBid Thin: false\nSpread Widened: false\n\n\
Cross Venue:\nConfirmed: true\nActive Venues: 3\n\nReason:\n- R0\n- R1\n";
    assert_eq!(text, expected);
}

#[test]
fn alert_message_lists_at_most_ten_reasons() {
    let text = format_alert_message(&message(12));
    assert!(text.ends_with("- R9\n"));
    assert!(!text.contains("- R10"));
    let mut m = message(0);
    m.leader_venue = None;
    m.net_flow_negative = true;
    let t = format_alert_message(&m);
    assert!(t.contains("Leader Venue: unknown\n"));
    assert!(t.contains("Net Flow: -1,234.5 BTC\n"));
    assert!(t.ends_with("Reason:\n"));
}

#[test]
fn deduper_reports_when_the_clock_is_too_far_from_a_send() {
    let mut deduper = AlertDeduper::new(1_000);
    assert!(deduper.times_fit(i64::MIN));
    deduper.mark_sent("k", 10);
    assert!(deduper.times_fit(5_000));
    assert!(deduper.times_fit(i64::MIN + 10));
    assert!(!deduper.times_fit(i64::MIN + 9));
    deduper.mark_sent("neg", -10);
    assert!(!deduper.times_fit(i64::MAX));
    assert!(deduper.times_fit(i64::MAX - 10));
}
