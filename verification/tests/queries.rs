use toxic_order_monitor::main_force::{
    filter_map, normalize_symbol, parse_main_force_query, MainForceEventsQuery,
};
use toxic_order_monitor::orderflow::canonical_symbol;

fn empty_query() -> MainForceEventsQuery {
    MainForceEventsQuery {
        symbol: None,
        regime_type: None,
        severity: None,
        active: None,
        from: None,
        to: None,
        limit: None,
        offset: None,
    }
}

#[test]
fn parse_main_force_query_normalizes_symbol_and_clamps_limit() {
    let query = MainForceEventsQuery {
        symbol: Some(" eth ".to_string()),
        regime_type: Some(" Main_Force_Long_Build ".to_string()),
        severity: Some(" Major ".to_string()),
        active: Some("yes".to_string()),
        from: Some("100".to_string()),
        to: Some("200".to_string()),
        limit: Some("999".to_string()),
        offset: Some("3".to_string()),
    };

    let requested_symbol = normalize_symbol(query.symbol.as_deref(), "BTC");
    let parsed = parse_main_force_query(&query, &requested_symbol).expect("parsed query");

    assert_eq!(parsed.symbol.as_deref(), Some("ETH"));
    assert_eq!(parsed.regime_type.as_deref(), Some("main_force_long_build"));
    assert_eq!(parsed.severity.as_deref(), Some("major"));
    assert_eq!(parsed.active_only, Some(true));
    assert_eq!(parsed.from_ts, Some(100));
    assert_eq!(parsed.to_ts, Some(200));
    assert_eq!(parsed.limit, 100);
    assert_eq!(parsed.offset, 3);
}

#[test]
fn filter_map_keeps_read_only_symbol_and_trimmed_filters() {
    let query = MainForceEventsQuery {
        active: Some("false".to_string()),
        regime_type: Some(" downside_absorption ".to_string()),
        severity: Some(" Extreme ".to_string()),
        ..empty_query()
    };

    let filter = filter_map("BTC", &query);

    assert_eq!(filter.get("symbol").map(String::as_str), Some("BTC"));
    assert_eq!(filter.get("readOnly").map(String::as_str), Some("true"));
    assert_eq!(filter.get("active").map(String::as_str), Some("false"));
    assert_eq!(
        filter.get("regimeType").map(String::as_str),
        Some("downside_absorption")
    );
    assert_eq!(filter.get("severity").map(String::as_str), Some("Extreme"));
}

#[test]
fn normalize_symbol_falls_back_to_default() {
    assert_eq!(normalize_symbol(None, "btc"), "BTC");
    assert_eq!(normalize_symbol(Some("   "), "eth"), "ETH");
}

#[test]
fn canonicalizes_perpetual_symbols() {
    assert_eq!(canonical_symbol(Some("BTC-PERP")).unwrap(), "BTCUSDT");
    assert_eq!(canonical_symbol(Some("ethusdt")).unwrap(), "ETHUSDT");
}

#[test]
fn main_force_query_drops_unreadable_bounds_and_uses_defaults() {
    let query = MainForceEventsQuery {
        active: Some("maybe".to_string()),
        from: Some("soon".to_string()),
        limit: Some("0".to_string()),
        offset: Some("-1".to_string()),
        ..empty_query()
    };
    let parsed = parse_main_force_query(&query, "BTC").expect("parsed query");
    assert_eq!(parsed.active_only, None);
    assert_eq!(parsed.from_ts, None);
    assert_eq!(parsed.limit, 1);
    assert_eq!(parsed.offset, 0);
    let defaults = parse_main_force_query(&empty_query(), "BTC").expect("parsed query");
    assert_eq!(defaults.limit, 20);
    assert_eq!(defaults.regime_type, None);
}

#[test]
fn filter_map_leaves_out_blank_filters() {
    let query = MainForceEventsQuery {
        active: Some(String::new()),
        regime_type: Some("   ".to_string()),
        ..empty_query()
    };
    let filter = filter_map("ETH", &query);
    assert_eq!(filter.len(), 2);
    assert!(filter.get("active").is_none());
    assert!(filter.get("regimeType").is_none());
}

#[test]
fn canonical_symbol_rejects_non_alphanumeric_and_defaults_to_btc() {
    assert_eq!(canonical_symbol(None).unwrap(), "BTCUSDT");
    assert_eq!(canonical_symbol(Some("sol")).unwrap(), "SOLUSDT");
    assert!(canonical_symbol(Some("BTC/USD")).is_err());
    assert!(canonical_symbol(Some("X")).is_err());
}
