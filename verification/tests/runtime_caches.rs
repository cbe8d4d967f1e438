use toxic_order_monitor::orderflow::{
    kline_cache_key, maybe_purge_delta_cache, orderflow_request, BinanceOrderflowQuery, KlineCache,
};
use toxic_order_monitor::projection::{
    unavailable, wait_outcome, BeginStep, CachedProjection, ProjectionCache, ProjectionOutcome,
    ProjectionUnavailableReason, WaitResult,
};
use toxic_order_monitor::retention::{
    retention_cutoff, retention_status, RetentionRuntime, RetentionSnapshot,
};
use toxic_order_monitor::timeline::drift_vs_canonical_sec;

const SEC: u64 = 1_000_000_000;

fn done(at: u64, value: u32) -> Option<CachedProjection<u32>> {
    Some(CachedProjection { completed_at: at, completed_at_ms: at as i64 / 1_000_000, value })
}

#[test]
fn equivalent_keys_join_one_projection() {
    let mut cache: ProjectionCache<u32> = ProjectionCache::new();
    assert!(matches!(cache.begin("q", 0), BeginStep::Wait { start: true }));
    assert!(matches!(cache.begin("q", 1), BeginStep::Wait { start: false }));
    assert_eq!(cache.in_flight_len(), 1);
    cache.finish("q", done(2, 7));
    assert_eq!(cache.in_flight_len(), 0);
    assert_eq!(cache.cached_value("q"), Some(&7));
}

#[test]
fn fresh_cache_entry_is_served_without_new_work() {
    let mut cache: ProjectionCache<u32> = ProjectionCache::new();
    cache.begin("q", 0);
    cache.finish("q", done(SEC, 1));
    match cache.begin("q", 5 * SEC) {
        BeginStep::Fresh { cache_age_nanos, .. } => assert_eq!(cache_age_nanos, 4 * SEC),
        _ => panic!("expected a fresh entry"),
    }
    assert_eq!(cache.in_flight_len(), 0);
}

#[test]
fn failed_refresh_keeps_the_stale_entry() {
    let mut cache: ProjectionCache<u32> = ProjectionCache::new();
    cache.begin("q", 0);
    cache.finish("q", done(0, 3));
    match cache.begin("q", 20 * SEC) {
        BeginStep::Stale { reason, start, .. } => {
            assert_eq!(reason, ProjectionUnavailableReason::RefreshInProgress);
            assert!(start);
        }
        _ => panic!("expected a stale entry"),
    }
    cache.finish("q", None);
    assert_eq!(cache.cached_value("q"), Some(&3));
    assert!(matches!(cache.begin("q", 400 * SEC), BeginStep::Wait { start: true }));
}

#[test]
fn waiting_without_cache_times_out_as_unavailable() {
    let r: Result<ProjectionOutcome<u32>, _> = wait_outcome(WaitResult::TimedOut, 0);
    let e = r.err().expect("timeout");
    assert_eq!(e.reason, ProjectionUnavailableReason::Timeout);
    assert_eq!(e.error_code(), "contract_projection_timeout");
    assert_eq!(e.retry_after_ms, 2_000);
    let failed: Result<ProjectionOutcome<u32>, _> = wait_outcome(WaitResult::ChannelClosed, 0);
    assert_eq!(failed.err().unwrap().error_code(), "contract_projection_failed");
    match wait_outcome(WaitResult::Finished(CachedProjection { completed_at: 5, completed_at_ms: 9, value: 4u32 }), 8) {
        Ok(ProjectionOutcome::Fresh { value, cache_age_nanos, completed_at_ms }) => {
            assert_eq!((value, cache_age_nanos, completed_at_ms), (4, 3, 9));
        }
        _ => panic!("expected a fresh value"),
    }
    assert_eq!(unavailable(ProjectionUnavailableReason::Busy).error_code(), "contract_projection_busy");
}

#[test]
fn cache_evicts_the_oldest_success_at_capacity() {
    let mut cache: ProjectionCache<u32> = ProjectionCache::with_config(2, 10 * SEC, 300 * SEC);
    for (i, key) in ["a", "b", "c"].iter().enumerate() {
        cache.begin(key, i as u64);
        cache.finish(key, done(i as u64, i as u32));
    }
    assert_eq!(cache.cache_len(), 2);
    assert_eq!(cache.cached_value("a"), None);
    assert_eq!(cache.cached_value("b"), Some(&1));
    assert_eq!(cache.cached_value("c"), Some(&2));
}

#[test]
fn in_flight_keys_are_bounded_by_the_limit() {
    let mut cache: ProjectionCache<u32> = ProjectionCache::with_config(1, SEC, 2 * SEC);
    assert!(matches!(cache.begin("a", 0), BeginStep::Wait { start: true }));
    assert!(matches!(
        cache.begin("b", 0),
        BeginStep::Unavailable(ProjectionUnavailableReason::Busy)
    ));
}

#[test]
fn retention_runtime_refreshes_once_and_serves_fresh_then_stale() {
    let mut rt: RetentionRuntime<&str> = RetentionRuntime::new();
    assert_eq!(rt.get_or_spawn(0), (RetentionSnapshot::Refreshing, true));
    assert_eq!(rt.get_or_spawn(1), (RetentionSnapshot::Refreshing, false));
    assert_eq!(rt.stats().started, 1);
    rt.refresh_running();
    assert_eq!(rt.stats().running, 1);
    rt.finish_refresh(Some("tables"), 10, 1_700_000_000_000);
    assert_eq!(rt.stats().running, 0);
    assert_eq!(
        rt.get_or_spawn(10),
        (RetentionSnapshot::Fresh { cache_age_nanos: 0, generated_at_ms: 1_700_000_000_000 }, false)
    );
    assert_eq!(rt.cached_value(), Some(&"tables"));
    let later = 10 + 900_000_000_001;
    assert_eq!(
        rt.get_or_spawn(later),
        (
            RetentionSnapshot::Stale {
                cache_age_nanos: 900_000_000_001,
                generated_at_ms: 1_700_000_000_000
            },
            true
        )
    );
    assert_eq!(rt.stats().started, 2);
}

#[test]
fn failed_retention_refresh_holds_back_for_two_seconds() {
    let mut rt: RetentionRuntime<u8> = RetentionRuntime::new();
    assert_eq!(rt.get_or_spawn(0), (RetentionSnapshot::Refreshing, true));
    rt.refresh_running();
    rt.finish_refresh(None, 100, 0);
    assert_eq!(rt.get_or_spawn(100 + SEC), (RetentionSnapshot::RefreshFailed, false));
    assert_eq!(rt.get_or_spawn(100 + 2 * SEC), (RetentionSnapshot::Refreshing, true));
}

#[test]
fn kline_cache_serves_rows_for_a_second_and_a_half() {
    let mut cache: KlineCache<Vec<u8>> = KlineCache::new();
    cache.store("k".to_string(), 1_000, vec![1, 2]);
    assert_eq!(cache.fresh("k", 2_500), Some(&vec![1, 2]));
    assert_eq!(cache.fresh("k", 2_501), None);
    assert_eq!(cache.fresh("other", 1_000), None);
}

#[test]
fn orderflow_request_defaults_clamps_and_keys() {
    let q = BinanceOrderflowQuery {
        symbol: Some(" eth-perp ".to_string()),
        interval: None,
        limit: Some(5_000),
        start_time: Some(5),
        end_time: None,
    };
    let req = orderflow_request(&q).expect("valid request");
    assert_eq!(req.symbol, "ETHUSDT");
    assert_eq!(req.interval, "1h");
    assert_eq!(req.limit, 1000);
    assert_eq!(kline_cache_key(&req), "ETHUSDT|1h|1000|Some(5)|None");
    let bad = BinanceOrderflowQuery {
        symbol: None,
        interval: Some("7m".to_string()),
        limit: None,
        start_time: None,
        end_time: None,
    };
    assert_eq!(orderflow_request(&bad).err().unwrap(), "unsupported Binance interval: 7m");
    let negative = BinanceOrderflowQuery {
        symbol: None,
        interval: None,
        limit: Some(0),
        start_time: None,
        end_time: Some(-1),
    };
    assert_eq!(orderflow_request(&negative).err().unwrap(), "time bounds must be positive");
    let wrong = BinanceOrderflowQuery {
        symbol: Some("BT".to_string()),
        interval: None,
        limit: None,
        start_time: None,
        end_time: None,
    };
    assert_eq!(
        orderflow_request(&wrong).err().unwrap(),
        "symbol must be a Binance USDT perpetual symbol"
    );
}

#[test]
fn delta_cache_is_purged_at_most_hourly() {
    assert_eq!(maybe_purge_delta_cache(0, 3_600_000), Some(3_600_000 - 1_814_400_000));
    assert_eq!(maybe_purge_delta_cache(0, 3_599_999), None);
}

#[test]
fn drift_is_whole_seconds_between_view_and_canonical() {
    assert_eq!(drift_vs_canonical_sec(Some(10_000), Some(4_000)), 6);
    assert_eq!(drift_vs_canonical_sec(None, Some(4_000)), 0);
}

fn table(rows: i64) -> toxic_order_monitor::events::RetentionTableStats {
    toxic_order_monitor::events::RetentionTableStats {
        oldest_ts: Some(1),
        newest_ts: Some(2),
        row_count: Some(rows),
        rows_older_than_retention: Some(0),
        protected_s_count: None,
        protected_net_volume_count: None,
        has_retention_cleanup: None,
        reason: None,
    }
}

fn tables() -> toxic_order_monitor::events::ContractRetentionTables {
    toxic_order_monitor::events::ContractRetentionTables {
        contract_flow_1s: table(10),
        contract_whale_signals: table(20),
        main_force_events: table(30),
    }
}

#[test]
fn retention_status_serves_fresh_and_stale_reports() {
    let fresh = retention_status(
        Some(RetentionSnapshot::Fresh { cache_age_nanos: 3_500_000_000, generated_at_ms: 77 }),
        Some(tables()),
    );
    assert_eq!(fresh.data_state, "fresh");
    assert!(!fresh.degraded);
    assert!(fresh.last_known_data_available);
    assert_eq!(fresh.generated_at, Some(77));
    assert_eq!(fresh.cache_age_sec, Some(3));
    assert_eq!(fresh.retry_after_ms, None);
    assert_eq!(fresh.error_code, None);
    assert_eq!(fresh.tables.contract_whale_signals.row_count, Some(20));

    let stale = retention_status(
        Some(RetentionSnapshot::Stale { cache_age_nanos: 1_000 * SEC, generated_at_ms: 5 }),
        Some(tables()),
    );
    assert_eq!(stale.data_state, "stale");
    assert!(stale.degraded);
    assert!(stale.last_known_data_available);
    assert_eq!(stale.cache_age_sec, Some(1_000));
    assert_eq!(stale.retry_after_ms, Some(2_000));
    assert_eq!(stale.error_code.as_deref(), Some("contract_retention_refresh_in_progress"));
    assert_eq!(stale.tables.main_force_events.row_count, Some(30));
}

#[test]
fn retention_status_without_report_is_degraded() {
    let refreshing = retention_status(Some(RetentionSnapshot::Refreshing), None);
    assert_eq!(refreshing.data_state, "degraded");
    assert!(!refreshing.last_known_data_available);
    assert_eq!(refreshing.retry_after_ms, Some(2_000));
    assert_eq!(refreshing.error_code.as_deref(), Some("contract_retention_refresh_in_progress"));
    assert_eq!(refreshing.tables.contract_flow_1s.reason.as_deref(), Some("refresh_in_progress"));
    assert_eq!(refreshing.tables.contract_flow_1s.row_count, None);

    let failed = retention_status(Some(RetentionSnapshot::RefreshFailed), None);
    assert_eq!(failed.error_code.as_deref(), Some("contract_retention_refresh_failed"));
    assert_eq!(failed.tables.main_force_events.reason.as_deref(), Some("refresh_failed"));

    let no_store = retention_status(None, None);
    assert_eq!(no_store.retry_after_ms, None);
    assert_eq!(no_store.generated_at, None);
    assert_eq!(no_store.cache_age_sec, None);
    assert_eq!(no_store.error_code.as_deref(), Some("contract_retention_store_unavailable"));
    assert_eq!(no_store.tables.contract_whale_signals.reason.as_deref(), Some("query_failed"));
}

#[test]
fn retention_cutoff_is_at_least_one_day_back() {
    assert_eq!(retention_cutoff(10 * 86_400_000, 3), 7 * 86_400_000);
    assert_eq!(retention_cutoff(10 * 86_400_000, 0), 9 * 86_400_000);
    assert_eq!(retention_cutoff(10 * 86_400_000, -5), 9 * 86_400_000);
    assert_eq!(retention_cutoff(i64::MIN + 5, 1), i64::MIN);
}
