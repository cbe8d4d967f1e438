use toxic_order_monitor::whale_query::{ContractWhaleDirection, ContractWhaleSeverity};
use toxic_order_monitor::whale_stats::{
    contract_data_quality_score, contract_whale_health_status, exchange_feed_status,
    latest_signal_summary, market_context_quality_score, spot_data_quality_score,
    summary_data_quality_scores, SummarySignalFacts, decorate_signal_units, filter_latest_by_exchange,
    ExchangeTagged, SignalUnits, contract_exchange_statuses, ExchangeFeedInput, ExchangeLastTrade, ExchangeSwitches,
    VenueConnectionStatus, VenueHealthFacts,
};

fn names(list: &[&str]) -> Vec<String> {
    list.iter().map(|s| s.to_string()).collect()
}

fn seen(exchange: &str, at: Option<i64>) -> ExchangeLastTrade {
    ExchangeLastTrade { exchange: exchange.to_string(), last_trade_at: at }
}

fn health(statuses: &[ExchangeLastTrade], now: i64) -> (String, String) {
    let statuses: Vec<ExchangeLastTrade> = statuses
        .iter()
        .map(|s| ExchangeLastTrade { exchange: s.exchange.clone(), last_trade_at: s.last_trade_at })
        .collect();
    contract_whale_health_status(
        true,
        false,
        &names(&["binance", "okx", "bitfinex"]),
        &names(&["binance"]),
        &statuses,
        now,
    )
}

#[test]
fn disabled_and_warming_up_come_first() {
    let r = contract_whale_health_status(false, true, &Vec::new(), &Vec::new(), &Vec::new(), 0);
    assert_eq!(r, ("disabled".to_string(), "contract_whale_monitor_disabled".to_string()));
    let r = contract_whale_health_status(true, true, &Vec::new(), &Vec::new(), &Vec::new(), 0);
    assert_eq!(r, ("warming_up".to_string(), "warmup_collect_only".to_string()));
    let r = contract_whale_health_status(true, false, &Vec::new(), &Vec::new(), &Vec::new(), 0);
    assert_eq!(r, ("unhealthy".to_string(), "no_enabled_contract_exchanges".to_string()));
}

#[test]
fn all_recent_with_primary_is_healthy() {
    let now = 1_000_000;
    let r = health(
        &[
            seen("binance", Some(now - 1_000)),
            seen("okx", Some(now - 30_000)),
            seen("bitfinex", Some(now - 59_000)),
        ],
        now,
    );
    assert_eq!(r, ("healthy".to_string(), "enabled_sources_recent".to_string()));
}

#[test]
fn partial_or_primary_missing_is_degraded() {
    let now = 1_000_000;
    let partial = health(&[seen("binance", Some(now)), seen("okx", Some(now - 30_001))], now);
    assert_eq!(partial, ("degraded".to_string(), "partial_sources_recent".to_string()));
    let missing = health(&[seen("binance", None), seen("okx", Some(now))], now);
    assert_eq!(missing, ("degraded".to_string(), "primary_source_missing".to_string()));
}

#[test]
fn no_recent_exchange_is_unhealthy() {
    let now = 1_000_000;
    let stale = health(&[seen("binance", Some(now - 60_001)), seen("okx", None)], now);
    assert_eq!(stale, ("unhealthy".to_string(), "all_sources_no_recent_trades".to_string()));
    let quiet = health(&[seen("binance", Some(now - 45_000))], now);
    assert_eq!(quiet, ("unhealthy".to_string(), "primary_sources_disconnected".to_string()));
}

fn switches(contract: bool, spot: bool) -> ExchangeSwitches {
    ExchangeSwitches {
        monitor_enabled: true,
        any_market_enabled: contract || spot,
        contract_enabled: contract,
        spot_enabled: spot,
    }
}

fn venue(status: VenueConnectionStatus, last: Option<i64>) -> VenueHealthFacts {
    VenueHealthFacts {
        ws_connected: false,
        trade_active: false,
        status,
        last_trade_ts: last,
        last_trade_message_at_ms: None,
        last_parsed_trade_at_ms: Some(10),
        ws_reconnect_count: 3,
        reconnect_count: 5,
    }
}

#[test]
fn contract_feed_connects_on_recent_flow() {
    let now = 1_000_000;
    let s = exchange_feed_status(
        switches(true, false),
        Some(now - 20_000),
        Some(venue(VenueConnectionStatus::Reconnecting, Some(now - 90_000))),
        now,
    );
    assert!(s.connected);
    assert_eq!(s.status, "connected");
    assert_eq!(s.last_trade_at, Some(now - 20_000));
    assert_eq!(s.latency_ms, Some(20_000));
    assert_eq!(s.reconnect_count, 5);
    assert!(s.platform_enabled && s.contract_enabled);
}

#[test]
fn silent_contract_feed_reports_health_status() {
    let now = 1_000_000;
    let s = exchange_feed_status(
        switches(true, false),
        None,
        Some(venue(VenueConnectionStatus::Reconnecting, Some(now - 90_000))),
        now,
    );
    assert!(!s.connected);
    assert_eq!(s.status, "reconnecting");
    assert_eq!(s.latency_ms, Some(90_000));
    let old = exchange_feed_status(switches(true, false), Some(now - 90_000_000), None, now);
    assert_eq!(old.status, "disconnected");
    assert_eq!(old.latency_ms, None);
    assert_eq!(old.reconnect_count, 0);
}

#[test]
fn spot_only_and_disabled_feeds() {
    let now = 1_000_000;
    let spot = exchange_feed_status(
        switches(false, true),
        Some(now),
        Some(venue(VenueConnectionStatus::Connected, Some(now - 5))),
        now,
    );
    assert_eq!(spot.status, "spot_only");
    assert!(!spot.connected);
    assert_eq!(spot.last_trade_at, Some(now - 5));
    let off = exchange_feed_status(
        ExchangeSwitches {
            monitor_enabled: false,
            any_market_enabled: true,
            contract_enabled: true,
            spot_enabled: true,
        },
        Some(now),
        None,
        now,
    );
    assert_eq!(off.status, "disabled");
    assert_eq!(off.last_trade_at, None);
    assert!(!off.platform_enabled && !off.contract_enabled);
}

#[test]
fn contract_and_spot_data_quality_scores() {
    let now = 1_000_000;
    let statuses = vec![
        seen("binance", Some(now - 1_000)),
        seen("okx", Some(now - 40_000)),
        seen("bybit", Some(now - 2_000)),
    ];
    let active = names(&["binance", "okx", "bybit"]);
    let primary = names(&["binance", "coinbase"]);
    assert_eq!(contract_data_quality_score(&active, &primary, &statuses, now, false), 78);
    assert_eq!(contract_data_quality_score(&active, &primary, &statuses, now, true), 58);
    assert_eq!(contract_data_quality_score(&names(&["binance", "bybit"]), &primary, &statuses, now, false), 95);
    assert_eq!(contract_data_quality_score(&names(&["okx", "bybit"]), &names(&["okx"]), &statuses, now, false), 58);
    assert_eq!(contract_data_quality_score(&names(&["okx"]), &primary, &statuses, now, true), 0);
    assert_eq!(contract_data_quality_score(&Vec::new(), &primary, &statuses, now, false), 0);
    assert_eq!(spot_data_quality_score(&active, &statuses, now, false), 78);
    assert_eq!(spot_data_quality_score(&names(&["binance"]), &statuses, now, true), 82);
    assert_eq!(spot_data_quality_score(&names(&["okx"]), &statuses, now, false), 25);
    assert_eq!(spot_data_quality_score(&Vec::new(), &statuses, now, false), 0);
    assert_eq!(market_context_quality_score(85, true, false, false), 80);
    assert_eq!(market_context_quality_score(2, true, false, true), 0);
    assert_eq!(market_context_quality_score(85, false, false, false), 85);
}

#[test]
fn overall_quality_weighs_contract_six_tenths() {
    let now = 1_000_000;
    let statuses = vec![seen("binance", Some(now)), seen("okx", Some(now - 40_000))];
    let (c, s, o) = summary_data_quality_scores(
        &names(&["binance", "okx"]),
        &names(&["binance"]),
        &names(&["binance"]),
        &statuses,
        now,
        false,
    );
    assert_eq!((c, s), (78, 92));
    assert_eq!(o, 84);
    let (c, s, o) = summary_data_quality_scores(&Vec::new(), &Vec::new(), &Vec::new(), &statuses, now, false);
    assert_eq!((c, s, o), (0, 0, 0));
}

fn fact(ts: i64, sent: bool, sent_at: Option<i64>) -> SummarySignalFacts {
    SummarySignalFacts {
        ts,
        severity: ContractWhaleSeverity::High,
        direction: ContractWhaleDirection::Sell,
        discord_sent: sent,
        discord_sent_at: sent_at,
    }
}

#[test]
fn latest_summary_reads_first_item_and_last_push() {
    let items = vec![fact(300, false, None), fact(200, true, None), fact(100, true, Some(150))];
    let s = latest_signal_summary(&items);
    assert_eq!(s.signal_count, 3);
    assert_eq!(s.latest_signal_at, Some(300));
    assert_eq!(s.latest_severity, ContractWhaleSeverity::High);
    assert_eq!(s.latest_status, "active");
    assert_eq!(s.latest_direction, "sell");
    assert_eq!(s.last_discord_sent_at, Some(200));
    let empty = latest_signal_summary(&Vec::new());
    assert_eq!(empty.signal_count, 0);
    assert_eq!(empty.latest_signal_at, None);
    assert_eq!(empty.latest_severity, ContractWhaleSeverity::Calm);
    assert_eq!(empty.latest_status, "calm");
    assert_eq!(empty.latest_direction, "neutral");
    assert_eq!(empty.last_discord_sent_at, None);
}

fn units(symbol: &str) -> SignalUnits {
    SignalUnits { symbol: symbol.to_string(), base_asset: String::new(), quantity_unit: String::new() }
}

#[test]
fn signal_units_come_from_the_symbol_or_the_fallback() {
    let mut items = vec![units("ETHUSDT"), units("  "), units("SOL-PERP"), units("ethusdt")];
    decorate_signal_units(&mut items, "BTCUSDT");
    assert_eq!(items[0].symbol, "ETHUSDT");
    assert_eq!(items[0].base_asset, "ETH");
    assert_eq!(items[0].quantity_unit, "ETH");
    assert_eq!(items[1].symbol, "BTC");
    assert_eq!(items[1].base_asset, "BTC");
    assert_eq!(items[2].base_asset, "SOL");
    assert_eq!(items[3].base_asset, "ETHUSDT");
}

fn tagged(exchanges: &[&str], id: u32) -> ExchangeTagged<u32> {
    ExchangeTagged { exchanges: names(exchanges), signal: id }
}

#[test]
fn latest_signals_narrow_to_an_exchange_ignoring_case() {
    let items = vec![tagged(&["Binance", "okx"], 1), tagged(&["bybit"], 2), tagged(&["OKX"], 3)];
    let (kept, filter) = filter_latest_by_exchange(items, Some("OKX"));
    assert_eq!(kept.iter().map(|t| t.signal).collect::<Vec<_>>(), vec![1, 3]);
    assert_eq!(filter.as_deref(), Some("okx"));
    let (all, none) = filter_latest_by_exchange(vec![tagged(&["bybit"], 2)], None);
    assert_eq!(all.len(), 1);
    assert_eq!(none, None);
}

#[test]
fn statuses_of_every_feed_in_order() {
    let now = 1_000_000;
    let feeds = vec![
        ExchangeFeedInput {
            exchange: "binance".to_string(),
            switches: switches(true, true),
            flow_last_trade: Some(now - 1_000),
            health: None,
        },
        ExchangeFeedInput {
            exchange: "coinbase".to_string(),
            switches: switches(false, true),
            flow_last_trade: None,
            health: Some(venue(VenueConnectionStatus::Connected, Some(now - 2_000))),
        },
    ];
    let statuses = contract_exchange_statuses(&feeds, now);
    assert_eq!(statuses.len(), 2);
    assert_eq!(statuses[0].0, "binance");
    assert_eq!(statuses[0].1.status, "connected");
    assert_eq!(statuses[0].1.latency_ms, Some(1_000));
    assert_eq!(statuses[1].0, "coinbase");
    assert_eq!(statuses[1].1.status, "spot_only");
    assert_eq!(statuses[1].1.last_trade_at, Some(now - 2_000));
}
