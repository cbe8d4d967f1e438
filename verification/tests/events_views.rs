use toxic_order_monitor::discord::{
    alert_family_label, behavior_lane_allows_push, default_cooldown_secs_for_family,
    discord_auto_push_enabled, market_structure_impact_level, market_structure_impact_level_score,
    market_structure_regime_label, market_structure_severity_label, normalize_signal_direction,
    parse_bool_env, read_u8_env, severity_allows, short_toxic_type_label, structure_bias_label,
    DiscordRequestFields, NormalizedDiscordDirection,
};
use toxic_order_monitor::events::{
    latest_vs_history, normalize_status_filter, status_matches, unavailable_retention_tables,
    validate_contract_events_query_at, validate_final_events_query_at, visibility_debug_counts,
    LatestSignalRef, ProjectedCandidate,
};
use toxic_order_monitor::message::{
    build_discord_candidate_message, embed_color_u8, format_score_u8, truncate_field,
    ToxicSignal, ToxicSignalDirection, ToxicSignalType,
};
use toxic_order_monitor::timeline::{
    assemble_contract_whale_timeline_response, build_canonical_timeline_meta,
    canonical_timeline_meta_for_signal_range, SignalRangeLookup, TimelinePageSummary,
};
use toxic_order_monitor::whale_query::ContractWhaleQuery;

fn query() -> ContractWhaleQuery {
    ContractWhaleQuery {
        limit: None,
        symbol: None,
        severity: None,
        signal_type: None,
        direction: None,
        discord_sent: None,
        window_sec: None,
        exchange: None,
        net_direction: None,
        status: None,
        range: None,
        cursor: None,
        from: None,
        to: None,
        offset: None,
        include_hidden: None,
        hide_stale: None,
    }
}

#[test]
fn events_queries_default_to_a_hundred_and_cap_at_five_hundred() {
    assert_eq!(validate_final_events_query_at(&query(), 0).unwrap(), 100);
    let mut q = query();
    q.limit = Some("9999".to_string());
    assert_eq!(validate_final_events_query_at(&q, 0).unwrap(), 500);
    q.limit = Some("abc".to_string());
    assert_eq!(validate_final_events_query_at(&q, 0).err().unwrap().reason, "limit_invalid");
    let mut c = query();
    c.include_hidden = Some("maybe".to_string());
    assert_eq!(
        validate_contract_events_query_at(&c, 0).err().unwrap().reason,
        "include_hidden_invalid"
    );
    c.include_hidden = Some("1".to_string());
    assert_eq!(validate_contract_events_query_at(&c, 0).unwrap(), 100);
}

#[test]
fn status_filters() {
    assert_eq!(normalize_status_filter(Some(" ACTIVE ")).as_deref(), Some("active"));
    assert_eq!(normalize_status_filter(Some("All")), None);
    assert_eq!(normalize_status_filter(Some("  ")), None);
    assert!(status_matches(Some("active"), "Active"));
    assert!(!status_matches(Some("closed"), "active"));
    assert!(status_matches(Some("other"), "anything"));
    assert!(status_matches(None, "x"));
}

fn candidate(id: &str, source: &str, visible: bool, reason: Option<&str>) -> ProjectedCandidate {
    ProjectedCandidate {
        event_id: id.to_string(),
        status: "active".to_string(),
        source_signal_id: source.to_string(),
        source_signal_ids: vec![format!("{source}-b")],
        is_visible: visible,
        hidden_reason: reason.map(str::to_string),
    }
}

#[test]
fn visibility_counts_split_hidden_reasons() {
    let cs = vec![
        candidate("e1", "s1", true, None),
        candidate("e2", "s2", false, Some("missing_price")),
        candidate("e3", "s3", false, Some("price_deviation_gt_5pct")),
        candidate("e4", "s4", false, Some("weird")),
    ];
    let counts = visibility_debug_counts(&cs);
    assert_eq!(counts.visible_count, 1);
    assert_eq!(counts.hidden_count, 3);
    assert_eq!(counts.hidden_reasons.missing_price, 1);
    assert_eq!(counts.hidden_reasons.price_deviation_gt_5pct, 1);
    assert_eq!(counts.hidden_reasons.unknown, 1);
    assert_eq!(counts.hidden_reasons.bad_quality, 0);
}

#[test]
fn latest_signals_are_found_in_history_or_explained() {
    let projected = vec![candidate("e1", "s1", true, None), candidate("e2", "s2", false, Some("bad_quality"))];
    let latest = vec![
        LatestSignalRef { id: "s1".to_string(), event_id: String::new(), symbol: "BTC".to_string(), ts: 50 },
        LatestSignalRef { id: "s2-b".to_string(), event_id: String::new(), symbol: "BTC".to_string(), ts: 60 },
        LatestSignalRef { id: "s9".to_string(), event_id: "e9".to_string(), symbol: "BTC".to_string(), ts: 5 },
        LatestSignalRef { id: "s8".to_string(), event_id: String::new(), symbol: "BTC".to_string(), ts: 70 },
    ];
    let r = latest_vs_history(&latest, &projected, Some(10), None);
    assert!(r[0].exists_in_history);
    assert_eq!(r[0].history_event_id.as_deref(), Some("e1"));
    assert!(!r[1].exists_in_history);
    assert_eq!(r[1].not_in_history_reason.as_deref(), Some("bad_quality"));
    assert_eq!(r[2].latest_event_id, "e9");
    assert_eq!(r[2].not_in_history_reason.as_deref(), Some("outside_requested_range"));
    assert_eq!(r[3].not_in_history_reason.as_deref(), Some("latest_snapshot_not_persisted_yet"));
}

#[test]
fn unreadable_retention_tables_report_the_reason() {
    let t = unavailable_retention_tables("db_locked");
    assert_eq!(t.contract_flow_1s.reason.as_deref(), Some("db_locked"));
    assert!(t.main_force_events.row_count.is_none());
}

fn page(count: usize, max: Option<i64>, generated_at: i64) -> TimelinePageSummary {
    TimelinePageSummary {
        count,
        max_event_ts: max,
        max_persisted_at: None,
        cache_age_sec: 1,
        cache_ttl_sec: 10,
        generated_at,
    }
}

#[test]
fn timeline_takes_the_first_source_with_a_time() {
    let r = assemble_contract_whale_timeline_response(
        "BTC",
        "24h",
        100_000,
        3,
        Some(95_000),
        &page(0, None, 7),
        &page(2, Some(90_000), 8),
        0,
    );
    assert_eq!(r.timeline.source, "final_events_v2");
    assert_eq!(r.timeline.event_ts, Some(90_000));
    assert_eq!(r.timeline.persisted_ts, Some(90_000));
    assert_eq!(r.timeline.timeline_lag_sec, 10);
    assert_eq!(r.timeline.processed_ts, Some(8));
    assert_eq!(r.views.latest.drift_vs_canonical_sec, 5);
    assert_eq!(r.views.flow.updated_at, None);
    let m = build_canonical_timeline_meta("x".to_string(), Some(200_000), None, None, 100_000);
    assert_eq!(m.timeline_lag_sec, 0);
}

fn fields() -> DiscordRequestFields {
    DiscordRequestFields {
        server_evidence_verified: true,
        alert_family: Some("MARKET_structure".to_string()),
        signal_id: None,
        id: None,
        dedupe_key: None,
        exchange: None,
        symbol: None,
        signal_type: Some("LiquidityPull".to_string()),
        level: Some(" a ".to_string()),
        side: None,
        score: None,
        reason: None,
        impact: None,
        impact_level: None,
        time: None,
        price_range: None,
        candidate_type: None,
        explain_tags: None,
        perp_score: None,
        perp_candidate_type: None,
        final_candidate_type: None,
        metrics_direction: None,
        advanced_score: None,
        advanced_candidate_type: None,
        main_force_score: Some(62),
        extreme_impact_score: None,
        structure_bias: None,
        market_structure_severity: Some("  ".to_string()),
        behavior_type: Some(" Liquidation_Sweep ".to_string()),
        behavior_state: None,
        behavior_confidence: None,
        behavior_main_force_confirmed: None,
        regime_type: None,
        spot_score: None,
        contract_score: None,
        cross_confirm_score: None,
        main_force_confirmed: None,
        signal_agreement: None,
        source_coverage: None,
        oi_score: None,
        liquidation_score: None,
        test: None,
    }
}

#[test]
fn discord_labels_and_levels() {
    let f = fields();
    assert_eq!(alert_family_label(&f), "market_structure");
    assert_eq!(market_structure_severity_label(&f), "Confirmed");
    assert_eq!(market_structure_impact_level(&f), Some("A"));
    assert_eq!(market_structure_impact_level_score(&f), Some(85));
    assert!(behavior_lane_allows_push(&f));
    assert_eq!(short_toxic_type_label(&f, NormalizedDiscordDirection::Neutral), "短线流动性撤离");
    assert_eq!(market_structure_regime_label("spot_distribution"), "现货派发");
    assert_eq!(market_structure_regime_label("other"), "结构未明");
    assert_eq!(structure_bias_label(15), "偏多");
    assert_eq!(structure_bias_label(-14), "中性");
    assert!(severity_allows(Some(" Critical ")));
    assert!(!severity_allows(Some("medium")));
    assert!(!severity_allows(None));
    assert!(matches!(normalize_signal_direction(Some("Bid/Buy")), NormalizedDiscordDirection::Bullish));
    assert!(matches!(normalize_signal_direction(Some("short")), NormalizedDiscordDirection::Bearish));
    assert!(matches!(normalize_signal_direction(None), NormalizedDiscordDirection::Neutral));
}

#[test]
fn environment_values_parse_with_fallbacks() {
    assert!(parse_bool_env(Some("yes"), false));
    assert!(!parse_bool_env(Some("off"), true));
    assert!(parse_bool_env(None, true));
    assert!(!discord_auto_push_enabled(Some("0"), Some("1"), true));
    assert!(discord_auto_push_enabled(None, Some("on"), false));
    assert_eq!(read_u8_env(Some("101"), Some("77")), Some(77));
    assert_eq!(read_u8_env(Some("80"), Some("77")), Some(80));
    assert_eq!(read_u8_env(Some("x"), None), None);
    assert_eq!(default_cooldown_secs_for_family(Some("0"), Some("30"), 60), 60);
    assert_eq!(default_cooldown_secs_for_family(None, Some("30"), 60), 30);
    assert_eq!(default_cooldown_secs_for_family(Some("12"), Some("30"), 60), 12);
}

#[test]
fn candidate_message_of_a_signal() {
    let signal = ToxicSignal {
        signal_id: "sig-1".to_string(),
        evidence_venue: Some("binance".to_string()),
        symbol: "BTCUSDT".to_string(),
        signal_type: ToxicSignalType::SpoofingCandidate,
        direction: ToxicSignalDirection::LongBias,
        toxicity_score: 91,
        primary_reason: "大额挂单快速撤离".to_string(),
        reason: vec!["撤单比例升高".to_string()],
    };
    let p = build_discord_candidate_message(&signal, "88/100");
    let e = &p.embeds[0];
    assert_eq!(e.title, "疑似有毒订单候选信号：BTCUSDT");
    assert_eq!(e.color, 0x8B0000);
    assert_eq!(e.fields[0].value, "91/100");
    assert_eq!(e.fields[1].value, "88/100");
    assert_eq!(format_score_u8(7), "7/100");
    assert_eq!(embed_color_u8(45), 0xFFD700);
    let long: String = "x".repeat(1000);
    let cut = truncate_field(&long);
    assert_eq!(cut.chars().count(), 900);
    assert!(cut.ends_with('…'));
}

#[test]
fn signal_range_timeline_prefers_caller_then_write_then_signal_time() {
    let found = canonical_timeline_meta_for_signal_range(
        Some(SignalRangeLookup { max_event_ts: Some(10_000), persisted_ts: Some(11_000) }),
        15_500,
        None,
    );
    assert_eq!(found.source, "contract_whale_signals");
    assert_eq!(found.event_ts, Some(10_000));
    assert_eq!(found.persisted_ts, Some(11_000));
    assert_eq!(found.processed_ts, Some(11_000));
    assert_eq!(found.timeline_lag_sec, 5);

    let given = canonical_timeline_meta_for_signal_range(
        Some(SignalRangeLookup { max_event_ts: Some(10_000), persisted_ts: None }),
        15_500,
        Some(12_000),
    );
    assert_eq!(given.processed_ts, Some(12_000));
    let only_signal = canonical_timeline_meta_for_signal_range(
        Some(SignalRangeLookup { max_event_ts: Some(10_000), persisted_ts: None }),
        15_500,
        None,
    );
    assert_eq!(only_signal.processed_ts, Some(10_000));
}

#[test]
fn signal_range_timeline_without_signals_or_store_is_none() {
    let empty = canonical_timeline_meta_for_signal_range(
        Some(SignalRangeLookup { max_event_ts: None, persisted_ts: Some(3) }),
        100,
        None,
    );
    assert_eq!(empty.source, "none");
    assert_eq!(empty.processed_ts, Some(3));
    assert_eq!(empty.timeline_lag_sec, 0);
    let unread = canonical_timeline_meta_for_signal_range(None, 100, Some(7));
    assert_eq!(unread.source, "none");
    assert_eq!(unread.event_ts, None);
    assert_eq!(unread.persisted_ts, None);
    assert_eq!(unread.processed_ts, Some(7));
}
