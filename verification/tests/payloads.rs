use toxic_order_monitor::discord::{DiscordRequestFields, NormalizedDiscordDirection};
use toxic_order_monitor::hydrate::{
    apply_market_structure_signal, apply_short_toxic_signal, begin_hydration,
    choose_hydration, clear_client_controlled_alert_content, market_structure_evidence_is_valid,
    runtime_is_authoritative, select_authoritative_signal, select_authoritative_structure,
    toxic_level, HydrationChoice, MarketStructureSignalFacts, RecentSignalRef,
    ShortToxicSignalFacts, StructureCandidateRef,
};
use toxic_order_monitor::payloads::{
    discord_payload, market_structure_judgment, market_structure_payload,
    market_structure_reasons, short_toxic_payload, short_toxic_reasons, MarketStructureEvidence,
    MarketStructureFigures, ShortToxicFigures,
};

fn blank_fields() -> DiscordRequestFields {
    DiscordRequestFields {
        server_evidence_verified: false,
        alert_family: None,
        signal_id: None,
        id: None,
        dedupe_key: None,
        exchange: None,
        symbol: None,
        signal_type: None,
        level: None,
        side: None,
        score: None,
        reason: None,
        impact: None,
        impact_level: None,
        time: None,
        price_range: None,
        candidate_type: None,
        explain_tags: None,
        perp_score: None,
        perp_candidate_type: None,
        final_candidate_type: None,
        metrics_direction: None,
        advanced_score: None,
        advanced_candidate_type: None,
        main_force_score: None,
        extreme_impact_score: None,
        structure_bias: None,
        market_structure_severity: None,
        behavior_type: None,
        behavior_state: None,
        behavior_confidence: None,
        behavior_main_force_confirmed: None,
        regime_type: None,
        spot_score: None,
        contract_score: None,
        cross_confirm_score: None,
        main_force_confirmed: None,
        signal_agreement: None,
        source_coverage: None,
        oi_score: None,
        liquidation_score: None,
        test: None,
    }
}

fn structure_fields() -> DiscordRequestFields {
    let mut f = blank_fields();
    f.server_evidence_verified = true;
    f.alert_family = Some("market_structure".to_string());
    f.signal_id = Some("ms-1".to_string());
    f.exchange = Some("Binance".to_string());
    f.symbol = Some("BTCUSDT".to_string());
    f.signal_type = Some("cwm_main_force".to_string());
    f.main_force_score = Some(82);
    f.extreme_impact_score = Some(40);
    f.structure_bias = Some(35);
    f.regime_type = Some("main_force_long_build".to_string());
    f.contract_score = Some(75);
    f.oi_score = Some(72);
    f.spot_score = Some(65);
    f.cross_confirm_score = Some(70);
    f.behavior_type = Some("new_long_build".to_string());
    f.behavior_state = Some("confirmed".to_string());
    f.behavior_confidence = Some(77);
    f.main_force_confirmed = Some(true);
    f.time = Some("2024-01-01T00:00:00Z".to_string());
    f
}

fn evidence() -> MarketStructureEvidence {
    MarketStructureEvidence {
        perp_eligible: true,
        liquidation_eligible: true,
        spot_eligible: true,
        price_shock: true,
    }
}

fn figures(extreme: bool) -> MarketStructureFigures {
    MarketStructureFigures {
        confidence_text: "81".to_string(),
        data_quality_text: "90".to_string(),
        extreme_template: extreme,
        evidence: evidence(),
        channel_setting: Some("alerts-main".to_string()),
    }
}

#[test]
fn structure_reasons_follow_direction_and_stop_at_four() {
    let f = structure_fields();
    let r = market_structure_reasons(
        &f,
        &evidence(),
        NormalizedDiscordDirection::Bullish,
        "main_force_long_build",
        false,
    );
    assert_eq!(
        r,
        "- 合约主动买入显著放大\n- OI 同步上升，偏新多开仓\n- 现货主动买入跟随\n- 价格出现明显短线冲击"
    );
}

#[test]
fn structure_reasons_need_verified_evidence() {
    let mut f = structure_fields();
    f.server_evidence_verified = false;
    let r = market_structure_reasons(
        &f,
        &evidence(),
        NormalizedDiscordDirection::Bearish,
        "upside_resistance",
        true,
    );
    assert_eq!(r, "- 合约主动卖出爆发");
    let mut f = structure_fields();
    f.contract_score = Some(10);
    f.oi_score = Some(10);
    f.spot_score = Some(10);
    f.liquidation_score = Some(90);
    let weak = MarketStructureEvidence {
        perp_eligible: true,
        liquidation_eligible: true,
        spot_eligible: true,
        price_shock: false,
    };
    let r = market_structure_reasons(&f, &weak, NormalizedDiscordDirection::Neutral, "x", true);
    assert_eq!(r, "- OI 快速下降\n- 现货卖出确认不足\n- 多头清算显著增加");
    let none = market_structure_reasons(&f, &weak, NormalizedDiscordDirection::Neutral, "x", false);
    assert_eq!(none, "");
}

#[test]
fn judgment_has_fixed_sentences_and_a_fallback() {
    assert_eq!(
        market_structure_judgment("spot_accumulation", "x", false),
        "现货吸筹迹象增强，偏向中长线承接。"
    );
    assert_eq!(
        market_structure_judgment("unknown", "继续观察。。", false),
        "继续观察；主力结构异动增强，建议继续观察现货和合约是否继续同向确认。"
    );
    assert_eq!(
        market_structure_judgment("main_force_short_build", "x", true),
        "这是极端下跌冲击，但暂不确认是主力建空。"
    );
    assert_eq!(
        market_structure_judgment("range_rotation", "冲击。", true),
        "冲击；这是极端行情冲击，但暂不确认是持续主力结构异动。"
    );
}

#[test]
fn structure_payload_has_title_fields_and_footer() {
    let f = structure_fields();
    let p = market_structure_payload(&f, &figures(false));
    assert!(p.content.is_none());
    assert_eq!(p.embeds.len(), 1);
    let e = &p.embeds[0];
    assert_eq!(e.title, "🚨 BTCUSDT 主力结构异动 Major");
    assert_eq!(
        e.description,
        "Binance / BTCUSDT · cwm_main_force · 主力建多 · market_structure"
    );
    assert_eq!(e.color, 5_763_719);
    assert_eq!(e.fields.len(), 15);
    assert_eq!(e.fields[0].name, "类型");
    assert_eq!(e.fields[0].value, "主力建多");
    assert_eq!(e.fields[1].name, "主力评分");
    assert_eq!(e.fields[1].value, "82/100");
    assert_eq!(e.fields[2].value, "偏多 +35");
    assert_eq!(e.fields[3].value, "40/100");
    assert_eq!(e.fields[4].value, "N/A");
    assert_eq!(e.fields[5].value, "81/100");
    assert_eq!(e.fields[6].value, "90/100");
    assert_eq!(e.fields[7].value, "65/100");
    assert_eq!(e.fields[8].value, "75/100");
    assert_eq!(e.fields[9].value, "70/100");
    assert_eq!(e.fields[10].value, "主力结构异动");
    assert_eq!(e.fields[11].value, "新多建仓 · 已确认 · 77/100");
    assert_eq!(e.fields[13].value, "高概率主力建多，不是单纯清算推动。");
    assert!(!e.fields[12].inline);
    assert_eq!(
        e.footer.as_ref().unwrap().text,
        "Candidate only | Family: market_structure | Channel: alerts-main | Signal: ms-1"
    );
    assert_eq!(e.timestamp.as_deref(), Some("2024-01-01T00:00:00Z"));
}

#[test]
fn extreme_template_changes_title_and_score_field() {
    let mut f = structure_fields();
    f.structure_bias = Some(-40);
    let p = market_structure_payload(&f, &figures(true));
    let e = &p.embeds[0];
    assert_eq!(e.title, "⚠️ BTCUSDT 极端行情冲击");
    assert_eq!(e.fields[1].name, "极端冲击");
    assert_eq!(e.fields[1].value, "40/100");
    assert_eq!(e.fields[2].value, "偏空 -40");
    assert_eq!(e.color, 15_548_997);
}

#[test]
fn unverified_spot_score_is_not_shown() {
    let mut f = structure_fields();
    f.server_evidence_verified = false;
    let mut g = figures(false);
    g.channel_setting = Some("   ".to_string());
    let p = market_structure_payload(&f, &g);
    let e = &p.embeds[0];
    assert_eq!(e.fields[7].value, "N/A");
    assert_eq!(
        e.footer.as_ref().unwrap().text,
        "Candidate only | Family: market_structure | Signal: ms-1"
    );
}

fn toxic_fields() -> DiscordRequestFields {
    let mut f = blank_fields();
    f.server_evidence_verified = true;
    f.alert_family = Some("short_toxic_order".to_string());
    f.signal_id = Some("st-9".to_string());
    f.symbol = Some("ETHUSDT".to_string());
    f.side = Some("Ask/Sell".to_string());
    f.score = Some(88);
    f.candidate_type = Some("spoofing_wall".to_string());
    f.explain_tags = Some(vec!["a".to_string(), "b".to_string(), "c".to_string()]);
    f.reason = Some("卖墙撤单。".to_string());
    f
}

fn toxic_figures(tof: bool) -> ShortToxicFigures {
    ShortToxicFigures {
        confidence_text: Some("72".to_string()),
        data_quality_text: None,
        tof_line: if tof {
            Some("TOF 80 / VPIN 61 / Imbalance 0.40 / Spread 6.0bps / Depth 70".to_string())
        } else {
            None
        },
        metric_reasons: if tof {
            vec!["近端盘口深度快速消失".to_string()]
        } else {
            Vec::new()
        },
        price_impact_text: Some("3.25".to_string()),
        channel_setting: None,
    }
}

#[test]
fn toxic_reasons_take_five_with_two_tags() {
    let r = short_toxic_reasons(&toxic_fields(), &toxic_figures(true));
    assert_eq!(
        r,
        "- 检测器识别到短线毒性候选\n- 近端盘口深度快速消失\n- 价格短线冲击 3.25bps\n- 解释标签：a\n- 解释标签：b"
    );
    let mut f = toxic_fields();
    f.server_evidence_verified = false;
    assert_eq!(short_toxic_reasons(&f, &toxic_figures(false)), "- 检测器识别到短线毒性候选");
}

#[test]
fn toxic_payload_lays_out_its_fields() {
    let p = short_toxic_payload(&toxic_fields(), &toxic_figures(true));
    let e = &p.embeds[0];
    assert_eq!(e.title, "🔴 ETHUSDT 短线有毒订单 High");
    assert_eq!(e.description, "N/A / ETHUSDT · Unknown · Ask/Sell · short_toxic_order");
    assert_eq!(e.color, 15_548_997);
    let names: Vec<&str> = e.fields.iter().map(|f| f.name.as_str()).collect();
    assert_eq!(
        names,
        vec![
            "类型", "短线压力", "窗口", "毒性评分", "置信度", "数据质量", "通知链路", "候选类型",
            "TOF 指标", "原因", "最终结果", "说明"
        ]
    );
    assert_eq!(e.fields[0].value, "虚假挂单 / 撤单诱导");
    assert_eq!(e.fields[1].value, "偏空");
    assert_eq!(e.fields[3].value, "88/100");
    assert_eq!(e.fields[4].value, "72/100");
    assert_eq!(e.fields[5].value, "N/A");
    assert_eq!(e.fields[7].value, "spoofing_wall");
    assert_eq!(e.fields[10].value, "卖墙撤单；短线毒性风险升高，不代表中长线趋势。");
    assert!(e.fields[11].value.starts_with("短线有毒订单 Candidate only，基于已验证"));
    assert_eq!(
        e.footer.as_ref().unwrap().text,
        "Candidate only | Family: short_toxic_order | Signal: st-9"
    );
}

#[test]
fn toxic_payload_without_metrics_uses_the_generic_notice() {
    let mut f = toxic_fields();
    f.candidate_type = Some("  ".to_string());
    f.reason = None;
    let p = short_toxic_payload(&f, &toxic_figures(false));
    let e = &p.embeds[0];
    assert_eq!(e.fields.len(), 10);
    assert_eq!(e.fields[8].value, "无法判断方向；短线毒性风险升高，不代表中长线趋势。");
    assert!(e.fields[9].value.contains("基于服务端已验证的可用候选证据"));
}

#[test]
fn test_request_gets_the_fixed_test_message() {
    let mut f = toxic_fields();
    f.test = Some(true);
    let p = discord_payload(&f, &figures(false), &toxic_figures(false));
    assert_eq!(
        p.content.as_deref(),
        Some("TEST MESSAGE / 测试消息: toxic-order-monitor Discord proxy is reachable.")
    );
    assert!(p.embeds.is_empty());
    let ms = discord_payload(&structure_fields(), &figures(false), &toxic_figures(false));
    assert_eq!(ms.embeds[0].fields.len(), 15);
}

#[test]
fn clearing_keeps_only_family_and_test_flag() {
    let mut f = structure_fields();
    f.test = Some(false);
    clear_client_controlled_alert_content(&mut f);
    assert!(!f.server_evidence_verified);
    assert!(f.symbol.is_none() && f.signal_id.is_none() && f.main_force_score.is_none());
    assert_eq!(f.alert_family.as_deref(), Some("market_structure"));
    assert_eq!(f.test, Some(false));
}

#[test]
fn hydration_reads_keys_then_clears() {
    let mut f = toxic_fields();
    f.signal_id = Some("  st-9 ".to_string());
    f.symbol = Some(" ethusdt ".to_string());
    let lookup = begin_hydration(&mut f, "BTCUSDT");
    assert_eq!(lookup.family, "SHORT_TOXIC");
    assert_eq!(lookup.signal_id.as_deref(), Some("st-9"));
    assert_eq!(lookup.symbol, "ETHUSDT");
    assert!(f.symbol.is_none());
    assert_eq!(f.alert_family.as_deref(), Some("short_toxic_order"));
    let mut g = blank_fields();
    g.alert_family = Some(" Market_Structure ".to_string());
    g.signal_id = Some("   ".to_string());
    let l = begin_hydration(&mut g, "btcusdt");
    assert_eq!(l.family, "MARKET_STRUCTURE");
    assert!(l.signal_id.is_none());
    assert_eq!(l.symbol, "BTCUSDT");
    assert_eq!(g.alert_family.as_deref(), Some("market_structure"));
    let mut h = blank_fields();
    h.symbol = Some("  ".to_string());
    let d = begin_hydration(&mut h, " btcusdt");
    assert_eq!(d.symbol, " BTCUSDT");
}

#[test]
fn toxic_levels_follow_the_score() {
    assert_eq!(toxic_level(95), "critical");
    assert_eq!(toxic_level(80), "high");
    assert_eq!(toxic_level(65), "medium");
    assert_eq!(toxic_level(64), "low");
}

#[test]
fn short_toxic_signal_fills_the_request() {
    let mut f = blank_fields();
    apply_short_toxic_signal(
        &mut f,
        "s1",
        ShortToxicSignalFacts {
            signal_id: "s1".to_string(),
            toxicity_score: 83,
            symbol: "BTCUSDT".to_string(),
            time: Some("2024-01-01T00:00:00.000Z".to_string()),
            signal_type: Some("spoofing".to_string()),
            side: Some("Bid/Buy".to_string()),
            venue: None,
            reasons: vec!["r1".to_string()],
            primary_reason: "primary".to_string(),
        },
    );
    assert!(f.server_evidence_verified);
    assert_eq!(f.level.as_deref(), Some("high"));
    assert_eq!(f.exchange.as_deref(), Some("Runtime"));
    assert_eq!(f.candidate_type.as_deref(), Some("spoofing"));
    assert_eq!(f.id.as_deref(), Some("s1"));
    assert_eq!(f.alert_family.as_deref(), Some("short_toxic_order"));
    assert_eq!(f.signal_id.as_deref(), Some("s1"));
}

fn structure_facts(main: Option<u8>) -> MarketStructureSignalFacts {
    MarketStructureSignalFacts {
        id: "m1".to_string(),
        main_exchange: Some("OKX".to_string()),
        symbol: "BTCUSDT".to_string(),
        detector: "cwm".to_string(),
        severity: Some("Major".to_string()),
        direction_label: "bullish".to_string(),
        risk_score: 80,
        core_reason: "core".to_string(),
        created_at: "t".to_string(),
        tof_eligible: true,
        perp_eligible: false,
        perp_score: Some(70),
        liquidation_eligible: false,
        liquidation_score: Some(88),
        main_force_score: main,
        extreme_impact_score: Some(20),
        structure_bias: Some(10),
        behavior_type: None,
        behavior_state: None,
        behavior_confidence: None,
        behavior_main_force_confirmed: None,
        regime_type: None,
        spot_score: Some(50),
        contract_score: Some(60),
        cross_confirm_score: None,
        main_force_confirmed: Some(false),
        signal_agreement: None,
        source_coverage: None,
        oi_score: None,
    }
}

#[test]
fn structure_signal_is_verified_only_with_whole_evidence() {
    let mut f = blank_fields();
    assert!(apply_market_structure_signal(&mut f, "m1", structure_facts(Some(70)), true));
    assert!(f.server_evidence_verified);
    assert!(f.perp_score.is_none());
    assert!(f.liquidation_score.is_none());
    assert_eq!(f.level.as_deref(), Some("Major"));
    let mut g = blank_fields();
    assert!(!apply_market_structure_signal(&mut g, "m1", structure_facts(None), true));
    assert!(!g.server_evidence_verified);
    assert!(g.symbol.is_none());
    assert_eq!(g.alert_family.as_deref(), Some("market_structure"));
    let mut h = blank_fields();
    assert!(!apply_market_structure_signal(&mut h, "m1", structure_facts(Some(70)), false));
    let mut k = blank_fields();
    assert!(!apply_market_structure_signal(&mut k, "m1", structure_facts(Some(101)), true));
}

#[test]
fn evidence_validity_checks_every_score_range() {
    let mut f = structure_fields();
    assert!(market_structure_evidence_is_valid(&f, true));
    f.oi_score = Some(101);
    assert!(!market_structure_evidence_is_valid(&f, true));
    let mut f = structure_fields();
    f.structure_bias = Some(-101);
    assert!(!market_structure_evidence_is_valid(&f, true));
    let mut f = structure_fields();
    f.main_force_confirmed = None;
    assert!(!market_structure_evidence_is_valid(&f, true));
}

fn recent_ref(id: &str, symbol: &str, ok: bool) -> RecentSignalRef {
    RecentSignalRef { signal_id: id.to_string(), symbol: symbol.to_string(), data_quality_ok: ok }
}

fn candidate_ref(id: &str, eligible: bool, cwm: bool) -> StructureCandidateRef {
    StructureCandidateRef { id: id.to_string(), alert_eligible: eligible, cwm_available: cwm }
}

#[test]
fn authoritative_signal_is_found_by_trimmed_id_and_symbol() {
    let recent = vec![
        recent_ref("st-9", "ETHUSDT", true),
        recent_ref("st-1", "btcusdt", true),
        recent_ref("st-1", "BTCUSDT", true),
    ];
    assert_eq!(select_authoritative_signal("st-1", "BTCUSDT", &recent), Some(1));
    assert_eq!(select_authoritative_signal("st-9", "BTCUSDT", &recent), None);
    assert_eq!(select_authoritative_signal(" st-1", "BTCUSDT", &recent), None);
    let candidates = vec![candidate_ref("m0", true, true), candidate_ref("m1", false, true)];
    assert_eq!(select_authoritative_structure("m1", &candidates), Some(1));
    assert_eq!(select_authoritative_structure("m9", &candidates), None);
}

#[test]
fn hydration_choice_needs_id_authority_and_sound_quality() {
    let mut f = toxic_fields();
    f.signal_id = Some("  st-1 ".to_string());
    f.symbol = Some("btcusdt".to_string());
    let plan = begin_hydration(&mut f, "BTCUSDT");
    let recent = vec![recent_ref("st-1", "BTCUSDT", true)];
    assert!(matches!(choose_hydration(&plan, true, &recent, &Vec::new()), HydrationChoice::ShortToxic(0)));
    assert!(matches!(choose_hydration(&plan, false, &recent, &Vec::new()), HydrationChoice::Nothing));
    let poor = vec![recent_ref("st-1", "BTCUSDT", false)];
    assert!(matches!(choose_hydration(&plan, true, &poor, &Vec::new()), HydrationChoice::Nothing));
    assert!(runtime_is_authoritative(true, true, false, true, false));
    assert!(!runtime_is_authoritative(true, true, false, true, true));

    let mut g = blank_fields();
    g.alert_family = Some("market_structure".to_string());
    g.signal_id = Some("m1".to_string());
    let plan = begin_hydration(&mut g, "BTCUSDT");
    let recent = vec![recent_ref("m1", "BTCUSDT", true)];
    let ok = vec![candidate_ref("m1", true, true)];
    assert!(matches!(choose_hydration(&plan, true, &recent, &ok), HydrationChoice::MarketStructure(0, 0)));
    let ineligible = vec![candidate_ref("m1", false, true), candidate_ref("m1", true, true)];
    assert!(matches!(choose_hydration(&plan, true, &recent, &ineligible), HydrationChoice::Nothing));
}
