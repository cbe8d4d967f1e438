use toxic_order_monitor::pipeline_debug::{PipelineLatestDebug, PipelineLatestItemDebug};
use toxic_order_monitor::whale_routes::{
    fresh_positions, stale_override, stale_snapshot_reason, whale_route_step,
    whale_source_after_store, WhaleRouteStep, WhaleSource,
};

fn item(id: &str, is_stale: bool) -> PipelineLatestItemDebug {
    PipelineLatestItemDebug {
        event_id: id.to_string(),
        ts: 0,
        age_sec: 0,
        is_stale,
        stale_reason: None,
    }
}

#[test]
fn route_step_checks_mismatch_then_switches_then_store() {
    assert_eq!(whale_route_step(true, false, false, true), WhaleRouteStep::MarketMismatch);
    assert_eq!(whale_route_step(false, false, true, true), WhaleRouteStep::MonitorDisabled);
    assert_eq!(whale_route_step(false, true, false, true), WhaleRouteStep::MonitorDisabled);
    assert_eq!(whale_route_step(false, true, true, true), WhaleRouteStep::QueryStore);
    assert_eq!(whale_route_step(false, true, true, false), WhaleRouteStep::LiveRuntime);
}

#[test]
fn only_a_non_empty_store_answer_is_served() {
    assert_eq!(whale_source_after_store(Some(3)), WhaleSource::StoredSignals);
    assert_eq!(whale_source_after_store(Some(0)), WhaleSource::LiveRuntimeWithStoreContext);
    assert_eq!(whale_source_after_store(None), WhaleSource::LiveRuntimeWithStoreContext);
}

#[test]
fn stale_rows_are_left_out_and_override_an_empty_judgement() {
    let debug = PipelineLatestDebug {
        latest_count: 3,
        stale_count: 2,
        max_age_sec: 0,
        items: vec![item("a", true), item("b", false), item("c", true)],
    };
    assert_eq!(fresh_positions(&debug), vec![1]);
    assert!(!stale_override(1, debug.stale_count));
    assert!(stale_override(0, 2));
    assert!(!stale_override(0, 0));
    assert_eq!(
        stale_snapshot_reason("BTC", None),
        "BTC latest 为旧快照，最近 24h 没有新的 BTC 主力历史信号。"
    );
    assert_eq!(
        stale_snapshot_reason("ETH", Some("1h")),
        "ETH latest 为旧快照，最近 1h 没有新的 ETH 主力历史信号。"
    );
}
