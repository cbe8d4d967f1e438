use toxic_order_monitor::alerts::ToxicDirection;
use toxic_order_monitor::liquidation_scope::{empty_liquidation_state, liquidation_state_for_symbol};

#[allow(dead_code)]
struct Cluster {
    price: f64,
    distance_bps: f64,
    cluster_notional_usd: f64,
    cluster_density: f64,
    touched_snapshots: u32,
    first_seen_ts: i64,
    last_seen_ts: i64,
    reason_codes: Vec<String>,
}

#[allow(dead_code)]
struct Readings {
    current_mid: Option<f64>,
    dominant_direction: ToxicDirection,
    recent_clusters: Vec<Cluster>,
}

fn current_mid(readings: &Option<Readings>) -> Option<f64> {
    readings.as_ref().and_then(|r| r.current_mid)
}

fn cluster_count(readings: &Option<Readings>) -> usize {
    readings.as_ref().map_or(0, |r| r.recent_clusters.len())
}

#[test]
fn mismatched_global_liquidation_state_becomes_symbol_scoped_unavailable_state() {
    let mut btc_state = empty_liquidation_state::<Readings>(100);
    btc_state.symbol = "BTC-PERP".to_string();
    btc_state.enabled = true;
    btc_state.readings = Some(Readings {
        current_mid: Some(100_000.0),
        dominant_direction: ToxicDirection::Buy,
        recent_clusters: vec![Cluster {
            price: 100_500.0,
            distance_bps: 50.0,
            cluster_notional_usd: 25_000_000.0,
            cluster_density: 0.9,
            touched_snapshots: 4,
            first_seen_ts: 10,
            last_seen_ts: 90,
            reason_codes: vec!["price_cluster_detected".to_string()],
        }],
    });
    let scoped = liquidation_state_for_symbol("ETH", btc_state, 200);

    assert_eq!(scoped.symbol, "ETH-PERP");
    assert!(!scoped.enabled);
    assert_eq!(current_mid(&scoped.readings), None);
    assert_eq!(cluster_count(&scoped.readings), 0);
    assert_eq!(scoped.reason_codes, vec!["liquidation_symbol_unavailable".to_string()]);
}

#[test]
fn canonical_matching_liquidation_state_preserves_observed_clusters() {
    let mut btc_state = empty_liquidation_state::<Readings>(100);
    btc_state.symbol = "BTC-PERP".to_string();
    btc_state.enabled = true;
    btc_state.readings = Some(Readings {
        current_mid: Some(100_000.0),
        dominant_direction: ToxicDirection::Neutral,
        recent_clusters: Vec::new(),
    });

    let scoped = liquidation_state_for_symbol("BTCUSDT", btc_state, 200);

    assert_eq!(scoped.symbol, "BTC-PERP");
    assert!(scoped.enabled);
    assert_eq!(current_mid(&scoped.readings), Some(100_000.0));
}

#[test]
fn unscoped_state_keeps_the_time_it_was_asked_at() {
    let mut state = empty_liquidation_state::<Readings>(100);
    state.symbol = "BTC-PERP".to_string();
    let scoped = liquidation_state_for_symbol("  sol_usdt ", state, 200);
    assert_eq!(scoped.symbol, "SOL-PERP");
    assert_eq!(scoped.updated_at, 200);
    let blank = liquidation_state_for_symbol::<Readings>("   ", empty_liquidation_state(5), 7);
    assert_eq!(blank.symbol, "");
    assert_eq!(blank.reason_codes, vec!["liquidation_symbol_unavailable".to_string()]);
}
