use toxic_order_monitor::gate::{alert_gate_message, GateMessageFigures};
use toxic_order_monitor::metrics::{
    build_contract_whale_metrics_text, build_contract_whale_metrics_text_with_trends,
    MetricsExchange, MetricsFigures, MetricsSignal, MetricsTrend,
};
use toxic_order_monitor::tally::tally;
use toxic_order_monitor::whale_labels::TrendUnitFields;
use toxic_order_monitor::whale_query::{ContractWhaleSeverity, ContractWhaleSignalType};
use toxic_order_monitor::whale_stats::{
    contract_market_mismatch_meta, discord_dry_run_stats, exchange_status_label,
    DryRunSignalFacts, ExchangePlatform, VenueConnectionStatus,
};

fn chars(s: &str) -> Vec<char> {
    s.chars().collect()
}

#[test]
fn tally_counts_each_key_once_in_key_order() {
    let keys = vec![
        (chars("high"), chars("buy")),
        (chars("calm"), chars("sell")),
        (chars("high"), chars("buy")),
        (chars("high"), chars("absorb")),
    ];
    let t = tally(&keys);
    let seen: Vec<(String, String, usize)> = t
        .iter()
        .map(|x| (x.first.iter().collect(), x.second.iter().collect(), x.count))
        .collect();
    assert_eq!(
        seen,
        vec![
            ("calm".to_string(), "sell".to_string(), 1),
            ("high".to_string(), "absorb".to_string(), 1),
            ("high".to_string(), "buy".to_string(), 2),
        ]
    );
    assert!(tally(&Vec::new()).is_empty());
}

fn signal(
    severity: ContractWhaleSeverity,
    kind: ContractWhaleSignalType,
    sent: bool,
    reason: &str,
) -> MetricsSignal {
    MetricsSignal {
        severity,
        signal_type: kind,
        discord_sent: sent,
        discord_reason: reason.to_string(),
    }
}

fn trend(unit: &str, v: &str) -> MetricsTrend {
    MetricsTrend {
        unit: TrendUnitFields {
            quantity_unit: unit.to_string(),
            base_asset: String::new(),
            symbol: "BTCUSDT".to_string(),
        },
        buy_volume: v.to_string(),
        sell_volume: v.to_string(),
        total_volume: v.to_string(),
        net_volume: v.to_string(),
    }
}

fn figures() -> MetricsFigures {
    MetricsFigures {
        flushed: true,
        buy_volume_btc: "1.500000".to_string(),
        sell_volume_btc: "0.250000".to_string(),
        data_quality: "77.5".to_string(),
    }
}

#[test]
fn metrics_text_lists_feeds_signals_and_trend() {
    let exchanges = vec![
        MetricsExchange {
            name: "Binance Futures".to_string(),
            connected: true,
            reconnect_count: 3,
            has_last_trade: true,
        },
        MetricsExchange {
            name: "okx".to_string(),
            connected: false,
            reconnect_count: 0,
            has_last_trade: false,
        },
    ];
    let signals = vec![
        signal(ContractWhaleSeverity::High, ContractWhaleSignalType::AggressiveBuy, true, ""),
        signal(ContractWhaleSeverity::High, ContractWhaleSignalType::AggressiveBuy, false, "Cool Down"),
        signal(ContractWhaleSeverity::Critical, ContractWhaleSignalType::AggressiveSell, false, "cool down"),
    ];
    let text = build_contract_whale_metrics_text(
        true,
        &exchanges,
        trend("BTC", "2.000000"),
        &signals,
        &figures(),
    );
    let expected = "# HELP cwm_enabled Contract whale monitor enabled flag.\n\
# TYPE cwm_enabled gauge\n\
cwm_enabled 1\n\
# HELP cwm_ws_connected WebSocket connection status by exchange.\n\
# TYPE cwm_ws_connected gauge\n\
cwm_ws_connected{exchange=\"binance_futures\"} 1\n\
cwm_ws_reconnect_total{exchange=\"binance_futures\"} 3\n\
cwm_trades_received_total{exchange=\"binance_futures\"} 1\n\
cwm_trade_normalize_errors_total{exchange=\"binance_futures\"} 0\n\
cwm_ws_connected{exchange=\"okx\"} 0\n\
cwm_ws_reconnect_total{exchange=\"okx\"} 0\n\
cwm_trades_received_total{exchange=\"okx\"} 0\n\
cwm_trade_normalize_errors_total{exchange=\"okx\"} 0\n\
cwm_bucket_flush_total 1\n\
cwm_bucket_flush_errors_total 0\n\
cwm_signals_generated_total{severity=\"critical\",type=\"aggressivesell\"} 1\n\
cwm_signals_generated_total{severity=\"high\",type=\"aggressivebuy\"} 2\n\
cwm_discord_sent_total 1\n\
cwm_discord_skipped_total{reason=\"cool_down\"} 2\n\
cwm_data_quality 77.5\n\
cwm_trend_60s_buy_volume{symbol=\"btc\",quantity_unit=\"btc\"} 2.000000\n\
cwm_trend_60s_sell_volume{symbol=\"btc\",quantity_unit=\"btc\"} 2.000000\n\
cwm_trend_60s_total_volume{symbol=\"btc\",quantity_unit=\"btc\"} 2.000000\n\
cwm_trend_60s_net_volume{symbol=\"btc\",quantity_unit=\"btc\"} 2.000000\n\
cwm_trend_60s_buy_volume_btc 1.500000\n\
cwm_trend_60s_sell_volume_btc 0.250000\n";
    assert_eq!(text, expected);
}

#[test]
fn disabled_monitor_reports_no_connection() {
    let exchanges = vec![MetricsExchange {
        name: "okx".to_string(),
        connected: true,
        reconnect_count: 1,
        has_last_trade: false,
    }];
    let text = build_contract_whale_metrics_text_with_trends(
        false,
        &exchanges,
        &Vec::new(),
        &Vec::new(),
        &figures(),
    );
    assert!(text.contains("cwm_enabled 0\n"));
    assert!(text.contains("cwm_ws_connected{exchange=\"okx\"} 0\n"));
    assert!(text.contains("cwm_discord_sent_total 0\ncwm_data_quality 77.5\n"));
    assert!(!text.contains("cwm_trend_60s_buy_volume{"));
}

fn dry(ts: i64, severity: ContractWhaleSeverity, would: bool, reason: &str) -> DryRunSignalFacts {
    DryRunSignalFacts {
        ts,
        severity,
        discord_would_send: would,
        discord_eligible: false,
        discord_reason: reason.to_string(),
    }
}

#[test]
fn dry_run_stats_count_the_last_hour() {
    let now = 10_000_000;
    let items = vec![
        dry(now - 3_600_001, ContractWhaleSeverity::High, true, ""),
        dry(now - 3_600_000, ContractWhaleSeverity::High, true, ""),
        dry(now, ContractWhaleSeverity::S, false, "Duplicate_Within_Window"),
        dry(now, ContractWhaleSeverity::Critical, false, "data_quality_low"),
        dry(now, ContractWhaleSeverity::Medium, false, "warmup"),
        dry(now, ContractWhaleSeverity::Calm, false, "display_only"),
        dry(now, ContractWhaleSeverity::Calm, false, "score"),
    ];
    let s = discord_dry_run_stats(&items, now);
    assert_eq!(s.signals_1h, 6);
    assert_eq!((s.high_1h, s.critical_1h, s.s_1h), (1, 1, 1));
    assert_eq!(s.would_send_1h, 1);
    assert_eq!(s.skipped_cooldown_1h, 1);
    assert_eq!(s.skipped_data_quality_1h, 1);
    assert_eq!(s.skipped_warmup_1h, 1);
    assert_eq!(s.skipped_display_only_1h, 1);
    assert_eq!(s.skipped_low_score_1h, 1);
}

#[test]
fn exchange_status_labels() {
    assert_eq!(exchange_status_label(false, true, true, None), "disabled");
    assert_eq!(exchange_status_label(true, false, true, None), "spot_only");
    assert_eq!(exchange_status_label(true, true, true, None), "connected");
    assert_eq!(
        exchange_status_label(true, true, false, Some(VenueConnectionStatus::Connecting)),
        "reconnecting"
    );
    assert_eq!(
        exchange_status_label(true, true, false, Some(VenueConnectionStatus::Disabled)),
        "disabled"
    );
    assert_eq!(exchange_status_label(true, true, false, None), "disconnected");
}

#[test]
fn market_mismatch_note_explains_a_disabled_perp_market() {
    let spot_only = ExchangePlatform {
        enabled: true,
        perp_enabled: false,
        spot_enabled: true,
        contract_markets_enabled: false,
    };
    let meta = contract_market_mismatch_meta(Some("Coinbase"), Some(spot_only)).unwrap();
    assert_eq!(meta.reason.as_deref(), Some("coinbase_perp_disabled"));
    assert_eq!(meta.exchange_status.as_deref(), Some("spot_only"));
    assert_eq!(meta.market_type.as_deref(), Some("perp"));
    let other = contract_market_mismatch_meta(Some("kraken"), Some(spot_only)).unwrap();
    assert_eq!(other.reason.as_deref(), Some("perp_market_disabled"));
    let off = ExchangePlatform {
        enabled: false,
        perp_enabled: false,
        spot_enabled: false,
        contract_markets_enabled: false,
    };
    let m = contract_market_mismatch_meta(Some("okx"), Some(off)).unwrap();
    assert_eq!(m.reason.as_deref(), Some("exchange_disabled"));
    assert_eq!(m.exchange_status.as_deref(), Some("disabled"));
    let on = ExchangePlatform { perp_enabled: true, ..off };
    assert!(contract_market_mismatch_meta(Some("okx"), Some(on)).is_none());
    assert!(contract_market_mismatch_meta(None, Some(off)).is_none());
    assert!(contract_market_mismatch_meta(Some("okx"), None).is_none());
}

#[test]
fn gate_messages_explain_the_reason() {
    let f = GateMessageFigures {
        score: 70,
        min_score: 80,
        confidence_text: "55".to_string(),
        min_confidence_text: "70".to_string(),
        data_quality_text: "60".to_string(),
        min_data_quality_text: "70".to_string(),
    };
    assert_eq!(
        alert_gate_message("Discord manual push skipped", "score_below_threshold", &f),
        "Discord manual push skipped: toxicScore=70 below 80"
    );
    assert_eq!(
        alert_gate_message("p", "confidence_below_threshold", &f),
        "p: confidence=55 below 70"
    );
    assert_eq!(alert_gate_message("p", "duplicate", &f), "p: duplicate candidate");
    assert_eq!(alert_gate_message("p", "whatever", &f), "p: whatever");
}
