use toxic_order_monitor::discord::{
    discord_auto_push_enabled, discord_dry_run, DiscordAlertMode, DiscordRequestFields,
};
use toxic_order_monitor::gate::{
    evaluate_discord_alert_gate, market_structure_trigger, preferred_discord_alert_family,
    structure_extreme_template, GateMeasures, GateOutcome, GateThresholds, MarketStructureTrigger,
};
use toxic_order_monitor::hydrate::clear_client_controlled_alert_content;
use toxic_order_monitor::message::DiscordWebhookPayload;
use toxic_order_monitor::payloads::{
    discord_payload, MarketStructureEvidence, MarketStructureFigures, ShortToxicFigures,
};

/// A request as the routes receive it, with its floating-point confidence
/// and data quality kept beside it.
struct Req {
    fields: DiscordRequestFields,
    confidence: Option<f64>,
    data_quality: Option<f64>,
}

fn request(score: Option<u8>, data_quality: Option<f64>) -> Req {
    Req {
        fields: DiscordRequestFields {
            server_evidence_verified: true,
            alert_family: Some("short_toxic_order".to_string()),
            signal_id: Some("sig_001".to_string()),
            id: None,
            dedupe_key: None,
            exchange: None,
            symbol: None,
            signal_type: None,
            level: Some("high".to_string()),
            side: None,
            score,
            reason: None,
            impact: None,
            impact_level: None,
            time: None,
            price_range: None,
            candidate_type: None,
            explain_tags: None,
            perp_score: None,
            perp_candidate_type: None,
            final_candidate_type: None,
            metrics_direction: None,
            advanced_score: None,
            advanced_candidate_type: None,
            main_force_score: None,
            extreme_impact_score: None,
            structure_bias: None,
            market_structure_severity: None,
            behavior_type: None,
            behavior_state: None,
            behavior_confidence: None,
            behavior_main_force_confirmed: None,
            regime_type: None,
            spot_score: None,
            contract_score: None,
            cross_confirm_score: None,
            main_force_confirmed: None,
            signal_agreement: None,
            source_coverage: None,
            oi_score: None,
            liquidation_score: None,
            test: None,
        },
        confidence: Some(90.0),
        data_quality,
    }
}

fn in_range(v: f64) -> bool {
    v.is_finite() && (0.0..=100.0).contains(&v)
}

fn measures(confidence: f64, data_quality: f64, min_confidence: f64, min_quality: f64) -> GateMeasures {
    GateMeasures {
        figures_valid: in_range(confidence) && in_range(data_quality),
        confidence_ok: confidence >= min_confidence,
        data_quality_ok: data_quality >= min_quality,
    }
}

fn short_gate(r: &Req, mode: DiscordAlertMode, dry_run: bool, configured: bool) -> GateOutcome {
    let m = measures(r.confidence.unwrap_or(0.0), r.data_quality.unwrap_or(0.0), 70.0, 70.0);
    evaluate_discord_alert_gate(
        &r.fields,
        GateThresholds { min_score: 85, min_extreme_score: 85 },
        m,
        mode,
        true,
        dry_run,
        configured,
    )
}

#[test]
fn alert_gate_rejects_low_score_or_low_data_quality() {
    assert!(short_gate(&request(Some(85), Some(70.0)), DiscordAlertMode::Manual, false, true).allowed);
    assert_eq!(
        short_gate(&request(Some(84), Some(90.0)), DiscordAlertMode::Manual, false, true).reason,
        "score_below_threshold"
    );
    let mut low_confidence = request(Some(90), Some(90.0));
    low_confidence.confidence = Some(69.0);
    assert_eq!(
        short_gate(&low_confidence, DiscordAlertMode::Manual, false, true).reason,
        "confidence_below_threshold"
    );
    let mut invalid_confidence = request(Some(90), Some(90.0));
    invalid_confidence.confidence = Some(f64::NAN);
    assert_eq!(
        short_gate(&invalid_confidence, DiscordAlertMode::Manual, false, true).reason,
        "invalid_authoritative_evidence"
    );
    let invalid_quality = request(Some(90), Some(f64::INFINITY));
    assert_eq!(
        short_gate(&invalid_quality, DiscordAlertMode::Manual, false, true).reason,
        "invalid_authoritative_evidence"
    );
    let invalid_score = request(Some(101), Some(90.0));
    assert_eq!(
        short_gate(&invalid_score, DiscordAlertMode::Manual, false, true).reason,
        "invalid_authoritative_evidence"
    );
    assert_eq!(
        short_gate(&request(Some(90), Some(69.0)), DiscordAlertMode::Manual, false, true).reason,
        "data_quality_below_threshold"
    );
    assert_eq!(
        short_gate(&request(None, Some(90.0)), DiscordAlertMode::Manual, false, true).reason,
        "score_below_threshold"
    );
    let mut medium = request(Some(90), Some(90.0));
    medium.fields.level = Some("medium".to_string());
    assert_eq!(
        short_gate(&medium, DiscordAlertMode::Manual, false, true).reason,
        "non_high_risk"
    );
}

#[test]
fn preview_validates_candidate_without_requiring_delivery_configuration() {
    let mut candidate = request(Some(92), Some(88.0));
    candidate.fields.test = Some(true);
    let preview = short_gate(&candidate, DiscordAlertMode::Preview, true, false);
    assert!(preview.allowed);
    let below = request(Some(84), Some(88.0));
    assert_eq!(
        short_gate(&below, DiscordAlertMode::Preview, true, false).reason,
        "score_below_threshold"
    );
    candidate.fields.test = Some(false);
    let manual = short_gate(&candidate, DiscordAlertMode::Manual, true, false);
    assert!(!manual.allowed);
    assert_eq!(manual.reason, "dry_run");
    let missing = short_gate(&candidate, DiscordAlertMode::Manual, false, false);
    assert_eq!(missing.reason, "webhook_missing");
}

#[test]
fn auto_mode_needs_the_auto_switch_and_verified_evidence() {
    let r = request(Some(95), Some(95.0));
    let m = measures(90.0, 95.0, 70.0, 70.0);
    let t = GateThresholds { min_score: 85, min_extreme_score: 85 };
    let off = evaluate_discord_alert_gate(&r.fields, t, m, DiscordAlertMode::Auto, false, false, true);
    assert_eq!(off.reason, "auto_disabled");
    let mut unverified = request(Some(95), Some(95.0));
    unverified.fields.server_evidence_verified = false;
    let u = evaluate_discord_alert_gate(
        &unverified.fields,
        t,
        m,
        DiscordAlertMode::Preview,
        true,
        false,
        true,
    );
    assert!(!u.allowed);
    assert_eq!(u.reason, "authoritative_evidence_unavailable");
}

fn market_request() -> Req {
    let mut market = request(Some(90), Some(90.0));
    market.fields.alert_family = Some("market_structure".to_string());
    market.fields.main_force_score = Some(90);
    market.fields.extreme_impact_score = Some(40);
    market.fields.structure_bias = Some(55);
    market.fields.main_force_confirmed = Some(false);
    market
}

fn market_gate(r: &Req, structure_confidence: f64) -> GateOutcome {
    let m = measures(structure_confidence, 90.0, 70.0, 70.0);
    evaluate_discord_alert_gate(
        &r.fields,
        GateThresholds { min_score: 80, min_extreme_score: 85 },
        m,
        DiscordAlertMode::Auto,
        true,
        false,
        true,
    )
}

#[test]
fn market_structure_gate_requires_valid_evidence_and_main_force_confirmation() {
    let mut market = market_request();
    assert_eq!(market_gate(&market, 90.0).reason, "main_force_not_confirmed");
    market.fields.main_force_confirmed = Some(true);
    let passed = market_gate(&market, 90.0);
    assert!(passed.allowed);
    assert_eq!(passed.score, 90);
    assert_eq!(market_gate(&market, f64::NAN).reason, "invalid_authoritative_evidence");
}

#[test]
fn market_structure_behavior_lane_blocks_unconfirmed_behavior() {
    let mut market = market_request();
    market.fields.main_force_confirmed = Some(true);
    market.fields.main_force_score = Some(99);
    market.fields.behavior_type = Some("insufficient_evidence".to_string());
    market.fields.behavior_state = Some("insufficient".to_string());
    market.fields.behavior_confidence = Some(0);
    market.fields.behavior_main_force_confirmed = Some(false);
    let decision = market_gate(&market, 90.0);
    assert!(!decision.allowed);
    assert_eq!(decision.reason, "behavior_not_confirmed");
    assert_eq!(decision.score, 99);
    market.fields.behavior_type = Some("new_long_build".to_string());
    market.fields.behavior_state = Some("confirmed".to_string());
    market.fields.behavior_confidence = Some(86);
    market.fields.behavior_main_force_confirmed = Some(true);
    assert!(market_gate(&market, 90.0).allowed);
}

#[test]
fn triggers_and_extreme_wording() {
    let t = GateThresholds { min_score: 80, min_extreme_score: 85 };
    let m = measures(90.0, 90.0, 70.0, 70.0);
    let mut market = market_request();
    market.fields.extreme_impact_score = Some(92);
    assert_eq!(
        market_structure_trigger(&market.fields, t, m),
        Some(MarketStructureTrigger::ExtremeImpact)
    );
    assert!(structure_extreme_template(&market.fields, t, m));
    market.fields.main_force_confirmed = Some(true);
    assert_eq!(
        market_structure_trigger(&market.fields, t, m),
        Some(MarketStructureTrigger::MainForce)
    );
    assert!(!structure_extreme_template(&market.fields, t, m));
    let mut level = market_request();
    level.fields.impact_level = Some(" a ".to_string());
    assert_eq!(
        market_structure_trigger(&level.fields, t, m),
        Some(MarketStructureTrigger::ImpactLevel)
    );
    let plain = request(Some(90), Some(90.0));
    assert_eq!(preferred_discord_alert_family(&plain.fields, t, m), "short_toxic_order");
    assert_eq!(preferred_discord_alert_family(&level.fields, t, m), "market_structure");
}

fn payload_text(p: &DiscordWebhookPayload) -> String {
    let mut out = String::new();
    if let Some(c) = &p.content {
        out.push_str(c);
    }
    for e in &p.embeds {
        out.push_str(&e.title);
        out.push_str(&e.description);
        for f in &e.fields {
            out.push_str(&f.name);
            out.push_str(&f.value);
        }
        if let Some(ft) = &e.footer {
            out.push_str(&ft.text);
        }
    }
    out
}

fn structure_figures() -> MarketStructureFigures {
    MarketStructureFigures {
        confidence_text: "90".to_string(),
        data_quality_text: "90".to_string(),
        extreme_template: false,
        evidence: MarketStructureEvidence {
            perp_eligible: false,
            liquidation_eligible: false,
            spot_eligible: false,
            price_shock: false,
        },
        channel_setting: None,
    }
}

fn toxic_figures(r: &Req) -> ShortToxicFigures {
    ShortToxicFigures {
        confidence_text: r.confidence.map(|v| format!("{v:.0}")),
        data_quality_text: r.data_quality.map(|v| format!("{v:.0}")),
        tof_line: None,
        metric_reasons: Vec::new(),
        price_impact_text: None,
        channel_setting: None,
    }
}

#[test]
fn discord_proxy_payload_uses_final_result_with_score_and_data_quality() {
    let mut request = request(Some(92), Some(90.0));
    request.fields.signal_id = Some("sig_final".to_string());
    request.fields.exchange = Some("Binance".to_string());
    request.fields.symbol = Some("BTC-PERP".to_string());
    request.fields.signal_type = Some("SpoofingCandidate".to_string());
    request.fields.side = Some("Ask/Sell".to_string());
    request.fields.reason = Some("卖方流动性移除，潜在下行压力".to_string());

    let payload = discord_payload(&request.fields, &structure_figures(), &toxic_figures(&request));
    let text = payload_text(&payload);

    assert!(text.contains("最终结果"));
    assert!(text.contains("短线有毒订单"));
    assert!(text.contains("毒性评分"));
    assert!(text.contains("置信度"));
    assert!(text.contains("数据质量"));
    assert!(text.contains("不代表中长线趋势"));
    assert!(text.contains("卖方流动性移除，潜在下行压力"));
    assert!(!text.contains("主力介入"));
    assert!(!text.contains("盘口证据"));
    assert!(!text.contains("撤后 Markout"));
    assert!(!text.contains("1,000"));
}

#[test]
fn discord_test_payload_is_marked_and_does_not_include_signal_id() {
    let mut request = request(Some(92), Some(90.0));
    request.fields.test = Some(true);

    let payload = discord_payload(&request.fields, &structure_figures(), &toxic_figures(&request));
    let text = payload_text(&payload);

    assert!(text.contains("TEST MESSAGE"));
    assert!(text.contains("测试消息"));
    assert!(!text.contains("sig_001"));
}

#[test]
fn clearing_untrusted_request_removes_content_and_evidence_for_both_families() {
    for family in ["short_toxic_order", "market_structure"] {
        let mut request = request(Some(99), Some(99.0));
        request.fields.alert_family = Some(family.to_string());
        request.fields.id = Some("forged-id".to_string());
        request.fields.dedupe_key = Some("forged-key".to_string());
        request.fields.reason = Some("forged judgment".to_string());
        request.fields.impact_level = Some("S".to_string());
        request.fields.main_force_score = Some(100);
        request.fields.main_force_confirmed = Some(true);
        request.fields.regime_type = Some("main_force_long_build".to_string());
        request.fields.test = Some(true);

        clear_client_controlled_alert_content(&mut request.fields);

        let f = &request.fields;
        assert!(!f.server_evidence_verified);
        assert!(f.signal_id.is_none());
        assert!(f.id.is_none());
        assert!(f.dedupe_key.is_none());
        assert!(f.symbol.is_none());
        assert!(f.reason.is_none());
        assert!(f.impact_level.is_none());
        assert!(f.main_force_score.is_none());
        assert!(f.main_force_confirmed.is_none());
        assert!(f.regime_type.is_none());
        assert_eq!(f.test, Some(true));
        assert_eq!(f.alert_family.as_deref(), Some(family));
    }
}

/// The short-term gate in auto mode with `DRY_RUN=false` and the family's
/// webhook set, the auto switch left at its default.
fn short_auto_gate(r: &Req) -> GateOutcome {
    let configured = true;
    let m = measures(r.confidence.unwrap_or(0.0), r.data_quality.unwrap_or(0.0), 70.0, 70.0);
    evaluate_discord_alert_gate(
        &r.fields,
        GateThresholds { min_score: 85, min_extreme_score: 85 },
        m,
        DiscordAlertMode::Auto,
        discord_auto_push_enabled(None, None, configured),
        discord_dry_run(Some("false")),
        configured,
    )
}

#[test]
fn behavior_lane_blocks_ordinary_volume_even_when_impact_scores_are_high() {
    let mut ordinary = request(Some(99), Some(99.0));
    ordinary.fields.main_force_score = Some(99);
    ordinary.fields.behavior_type = Some("insufficient_evidence".to_string());
    ordinary.fields.behavior_state = Some("insufficient".to_string());
    ordinary.fields.behavior_confidence = Some(0);
    ordinary.fields.behavior_main_force_confirmed = Some(false);
    let decision = short_auto_gate(&ordinary);
    assert!(!decision.allowed);
    assert_eq!(decision.reason, "behavior_not_confirmed");
}

#[test]
fn behavior_lane_allows_only_confirmed_main_force_behavior() {
    let mut confirmed = request(Some(99), Some(99.0));
    confirmed.fields.main_force_score = Some(99);
    confirmed.fields.behavior_type = Some("new_long_build".to_string());
    confirmed.fields.behavior_state = Some("confirmed".to_string());
    confirmed.fields.behavior_confidence = Some(86);
    confirmed.fields.behavior_main_force_confirmed = Some(true);
    let decision = short_auto_gate(&confirmed);
    assert!(decision.allowed);
}
