use toxic_order_monitor::structure_lite::{
    market_structure_lite_from_items, spot_confirmation_for_signal, spot_direction_key,
    spot_severity_key, spot_signal_type_key, strongest_signal_index, trade_regime_context,
    SpotContextFacts, SpotWhaleDirection, SpotWhaleSeverity, SpotWhaleSignalType,
};
use toxic_order_monitor::whale_labels::WhaleSignalFacts;
use toxic_order_monitor::whale_query::{
    ContractWhaleDirection, ContractWhaleSeverity, ContractWhaleSignalType,
};

fn sig(score: u8, direction: ContractWhaleDirection, severity: ContractWhaleSeverity) -> WhaleSignalFacts {
    WhaleSignalFacts {
        severity,
        direction,
        signal_type: ContractWhaleSignalType::AggressiveBuy,
        score,
        liquidation_suspected: false,
    }
}

fn items() -> Vec<WhaleSignalFacts> {
    vec![
        sig(80, ContractWhaleDirection::Buy, ContractWhaleSeverity::High),
        sig(90, ContractWhaleDirection::Sell, ContractWhaleSeverity::Critical),
        sig(90, ContractWhaleDirection::Buy, ContractWhaleSeverity::S),
    ]
}

fn spot(status: &str, confirmation: &str, score: u8) -> SpotContextFacts {
    SpotContextFacts { status: status.to_string(), confirmation_type: confirmation.to_string(), score }
}

#[test]
fn strongest_signal_is_the_last_of_the_highest_scores() {
    assert_eq!(strongest_signal_index(&items()), Some(2));
    assert_eq!(strongest_signal_index(&Vec::new()), None);
}

#[test]
fn confirmed_structure_from_spot_confirmation() {
    let lite = market_structure_lite_from_items(
        &items(),
        &spot("available", "confirms_contract_direction", 70),
        80,
        true,
        true,
        66,
    );
    assert_eq!(lite.contract_score, 90);
    assert_eq!(lite.spot_score, 70);
    assert_eq!(lite.cross_confirm_score, 75);
    assert_eq!(lite.main_force_score, 79);
    assert_eq!(lite.extreme_impact_score, 90);
    assert_eq!(lite.structure_bias, 90);
    assert!(lite.main_force_confirmed);
    assert!(lite.extreme_impact_confirmed);
    assert_eq!(lite.status, "confirmed");
    assert_eq!(lite.regime_type, "main_force_long_build");
    assert_eq!(lite.confidence, 66);
    assert_eq!(lite.reason, "合约主动买入与现货方向确认，主力建多概率提高。");
}

#[test]
fn switched_off_scores_leave_a_watch() {
    let lite = market_structure_lite_from_items(
        &items(),
        &spot("no_spot_sample", "spot_context_only", 70),
        60,
        false,
        true,
        40,
    );
    assert_eq!(lite.contract_score, 0);
    assert_eq!(lite.spot_score, 0);
    assert_eq!(lite.main_force_score, 9);
    assert!(!lite.extreme_impact_confirmed);
    assert_eq!(lite.status, "watch");
    assert_eq!(lite.regime_type, "contract_flow_shock");
}

#[test]
fn no_signal_is_calm() {
    let lite = market_structure_lite_from_items(&Vec::new(), &spot("available", "x", 50), 77, true, true, 9);
    assert_eq!(lite.status, "calm");
    assert_eq!(lite.regime_type, "unclear");
    assert_eq!(lite.data_quality, 77);
    assert_eq!(lite.confidence, 0);
    assert_eq!(lite.main_force_score, 0);
    assert_eq!(lite.reason, "暂无 CWM 主力合约信号，结构评分保持观察。");
}

fn confirm(direction: ContractWhaleDirection, status: &str, spot_direction: &str) -> (String, String) {
    spot_confirmation_for_signal(direction, status, spot_direction, "spot_context_only")
}

#[test]
fn spot_confirmation_of_contract_direction() {
    let s = |a: &str, b: &str| (a.to_string(), b.to_string());
    assert_eq!(
        confirm(ContractWhaleDirection::Buy, "available", "buy"),
        s("confirmed", "confirms_contract_direction")
    );
    assert_eq!(
        confirm(ContractWhaleDirection::Sell, "available", "absorption"),
        s("confirmed", "spot_absorption_against_contract_sell")
    );
    assert_eq!(
        confirm(ContractWhaleDirection::Buy, "available", "suppression"),
        s("confirmed", "spot_resistance_against_contract_buy")
    );
    assert_eq!(confirm(ContractWhaleDirection::Buy, "available", "sell"), s("divergent", "spot_divergence"));
    assert_eq!(
        confirm(ContractWhaleDirection::Absorption, "available", "buy"),
        s("context", "spot_context_only")
    );
    assert_eq!(
        spot_confirmation_for_signal(ContractWhaleDirection::Buy, "disabled", "buy", "none"),
        s("disabled", "none")
    );
}

#[test]
fn trade_regime_context_falls_back_to_status_then_unclear() {
    assert_eq!(trade_regime_context("range_rotation", "watch"), "range_rotation");
    assert_eq!(trade_regime_context("  ", "watch"), "watch");
    assert_eq!(trade_regime_context("", " "), "unclear");
}

#[test]
fn spot_keys() {
    assert_eq!(spot_direction_key(SpotWhaleDirection::Dislocation), "dislocation");
    assert_eq!(spot_signal_type_key(SpotWhaleSignalType::SpotUpsideSuppression), "spot_upside_suppression");
    assert_eq!(spot_severity_key(SpotWhaleSeverity::S), "s");
}
