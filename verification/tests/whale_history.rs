use toxic_order_monitor::whale_labels::{
    contract_base_asset, detector_data_quality, max_option, metric_label, warmup_state,
};
use toxic_order_monitor::whale_query::{
    encode_contract_history_cursor, parse_cursor, parse_history_query, parse_history_query_at, ContractHistoryCursor,
    ContractWhaleDirection, ContractWhaleQuery, ContractWhaleSeverity,
};

fn query() -> ContractWhaleQuery {
    ContractWhaleQuery {
        limit: None,
        symbol: None,
        severity: None,
        signal_type: None,
        direction: None,
        discord_sent: None,
        window_sec: None,
        exchange: None,
        net_direction: None,
        status: None,
        range: None,
        cursor: None,
        from: None,
        to: None,
        offset: None,
        include_hidden: None,
        hide_stale: None,
    }
}

const NOW: i64 = 1_700_000_000_000;

#[test]
fn history_query_defaults() {
    let q = parse_history_query_at(&query(), NOW).expect("empty query is accepted");
    assert_eq!(q.limit, 50);
    assert_eq!(q.offset, 0);
    assert!(q.symbol.is_none() && q.severity.is_none() && q.from_ts.is_none());
}

#[test]
fn history_query_reads_filters_range_and_clamps_limit() {
    let mut raw = query();
    raw.symbol = Some(" btc-perp ".to_string());
    raw.severity = Some("HIGH".to_string());
    raw.direction = Some("buy".to_string());
    raw.window_sec = Some("15".to_string());
    raw.net_direction = Some("ABS500".to_string());
    raw.range = Some("1h".to_string());
    raw.limit = Some("9999".to_string());
    raw.discord_sent = Some("true".to_string());
    let q = parse_history_query_at(&raw, NOW).expect("accepted");
    assert_eq!(q.symbol.as_deref(), Some("BTC-PERP"));
    assert_eq!(q.severity, Some(ContractWhaleSeverity::High));
    assert_eq!(q.direction, Some(ContractWhaleDirection::Buy));
    assert_eq!(q.window_sec, Some(15));
    assert_eq!(q.min_abs_net_volume_btc, Some(500));
    assert_eq!(q.from_ts, Some(NOW - 3_600_000));
    assert_eq!(q.limit, 500);
    assert_eq!(q.discord_sent, Some(true));
}

#[test]
fn history_query_names_the_first_bad_parameter() {
    let mut raw = query();
    raw.severity = Some("loud".to_string());
    raw.window_sec = Some("7".to_string());
    assert_eq!(parse_history_query_at(&raw, NOW).err().unwrap().reason, "severity_invalid");
    let mut raw = query();
    raw.window_sec = Some("7".to_string());
    assert_eq!(parse_history_query_at(&raw, NOW).err().unwrap().reason, "window_sec_invalid");
    let mut raw = query();
    raw.from = Some("200".to_string());
    raw.to = Some("100".to_string());
    assert_eq!(
        parse_history_query_at(&raw, NOW).err().unwrap().reason,
        "from_must_be_before_to"
    );
    let mut raw = query();
    raw.range = Some("2y".to_string());
    assert_eq!(parse_history_query_at(&raw, NOW).err().unwrap().reason, "range_invalid");
    let mut raw = query();
    raw.limit = Some("ten".to_string());
    assert_eq!(parse_history_query_at(&raw, NOW).err().unwrap().reason, "limit_invalid");
    let mut raw = query();
    raw.symbol = Some("BTC USDT".to_string());
    assert_eq!(parse_history_query_at(&raw, NOW).err().unwrap().reason, "symbol_invalid");
}

#[test]
fn explicit_from_wins_over_the_named_range() {
    let mut raw = query();
    raw.from = Some("123".to_string());
    raw.range = Some("24h".to_string());
    assert_eq!(parse_history_query_at(&raw, NOW).unwrap().from_ts, Some(123));
}

#[test]
fn cursor_token_round_trips() {
    let token = encode_contract_history_cursor(1_700_000_000_000, "sig-1");
    assert_eq!(token, "MTcwMDAwMDAwMDAwMHxzaWctMQ==");
    assert_eq!(
        parse_cursor(Some(&token)).unwrap(),
        Some(ContractHistoryCursor::Positioned { ts: 1_700_000_000_000, signal_id: "sig-1".to_string() })
    );
    let mut raw = query();
    raw.cursor = Some(token.clone());
    raw.offset = Some("7".to_string());
    let q = parse_history_query_at(&raw, NOW).expect("accepted");
    assert_eq!(q.cursor_ts, Some(1_700_000_000_000));
    assert_eq!(q.cursor_signal_id.as_deref(), Some("sig-1"));
    assert_eq!(q.offset, 7);
    raw.offset = Some("oops".to_string());
    assert_eq!(parse_history_query_at(&raw, NOW).err().unwrap().reason, "offset_invalid");
    let mut by_offset = query();
    by_offset.cursor = Some("12".to_string());
    by_offset.offset = Some("oops".to_string());
    assert_eq!(parse_history_query_at(&by_offset, NOW).unwrap().offset, 12);
}

#[test]
fn numeric_cursor_is_an_offset_and_bad_cursors_are_refused() {
    assert_eq!(parse_cursor(Some(" 40 ")).unwrap(), Some(ContractHistoryCursor::Offset(40)));
    assert_eq!(parse_cursor(Some("  ")).unwrap(), None);
    assert_eq!(parse_cursor(Some("MTJ8")).err().unwrap().reason, "cursor_invalid");
    assert_eq!(parse_cursor(Some("YWJj")).err().unwrap().reason, "cursor_invalid");
    assert_eq!(parse_cursor(Some("***")).err().unwrap().reason, "cursor_invalid");
}

#[test]
fn labels_and_small_rules() {
    assert_eq!(metric_label("Binance Futures!"), "binance_futures");
    assert_eq!(max_option(Some(3), None), Some(3));
    assert_eq!(max_option(Some(3), Some(9)), Some(9));
    assert_eq!(max_option(None, None), None);
    assert_eq!(detector_data_quality(0), 40);
    assert_eq!(detector_data_quality(1), 70);
    assert_eq!(detector_data_quality(3), 85);
    assert_eq!(contract_base_asset("ETHUSDT"), "ETH");
}

#[test]
fn warmup_lasts_from_boot_for_the_warmup_time() {
    let w = warmup_state(1_000, true, 5_000, Some(0));
    assert!(w.active);
    assert_eq!(w.until_ms, Some(5_000));
    assert_eq!(w.remaining_ms, Some(4_000));
    let over = warmup_state(6_000, true, 5_000, Some(0));
    assert!(!over.active);
    assert_eq!(over.until_ms, Some(5_000));
    assert_eq!(over.remaining_ms, None);
    let off = warmup_state(1_000, false, 5_000, Some(0));
    assert!(!off.active && off.until_ms.is_none());
}

#[test]
fn cursor_of_any_time_parses_back_through_the_history_query() {
    for (ts, id) in [(-5_i64, "x"), (0, "sig-0"), (9, "a b")] {
        let token = encode_contract_history_cursor(ts, id);
        assert!(!token.starts_with(|c: char| c.is_ascii_digit()));
        let mut raw = query();
        raw.cursor = Some(token);
        let q = parse_history_query(&raw).expect("accepted");
        assert_eq!(q.cursor_ts, Some(ts));
        assert_eq!(q.cursor_signal_id.as_deref(), Some(id));
        assert_eq!(q.offset, 0);
    }
    let mut by_offset = query();
    by_offset.cursor = Some(31.to_string());
    let q = parse_history_query(&by_offset).expect("accepted");
    assert_eq!(q.offset, 31);
    assert!(q.cursor_ts.is_none() && q.cursor_signal_id.is_none());
}
