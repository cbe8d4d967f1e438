//! The light market-structure view of the contract-whale summary: the
//! strongest signal scored against the spot market's confirmation, and how
//! a spot context confirms a contract signal.
use vstd::prelude::*;

use crate::text::{chars_of, eq_str, trim, trim_chars};
use crate::whale_labels::{
    bias_of, cross_confirm, cross_confirm_score, extreme_impact, extreme_impact_score,
    market_regime_type, market_structure_reason, reason_of, regime_of, structure_bias,
    WhaleSignalFacts,
};
use crate::whale_query::{direction_word, ContractWhaleDirection};

verus! {

/// What the structure view reads of the spot context.
pub struct SpotContextFacts {
    pub status: String,
    pub confirmation_type: String,
    pub score: u8,
}

/// The light market-structure view.
pub struct ContractWhaleMarketStructureLite {
    pub status: String,
    pub regime_type: String,
    pub main_force_score: u8,
    pub extreme_impact_score: u8,
    pub structure_bias: i16,
    pub confidence: u8,
    pub data_quality: u8,
    pub spot_score: u8,
    pub contract_score: u8,
    pub cross_confirm_score: u8,
    pub main_force_confirmed: bool,
    pub extreme_impact_confirmed: bool,
    pub reason: String,
}

/// The index of the strongest signal: the highest score, the last one
/// among equals.
pub open spec fn strongest_index(items: Seq<WhaleSignalFacts>) -> Option<int>
    decreases items.len(),
{
    if items.len() == 0 {
        None
    } else {
        match strongest_index(items.drop_last()) {
            None => Some(items.len() - 1),
            Some(i) => if items.last().score >= items[i].score {
                Some(items.len() - 1)
            } else {
                Some(i)
            },
        }
    }
}

proof fn lemma_strongest_in_range(items: Seq<WhaleSignalFacts>)
    ensures
        strongest_index(items) matches Some(i) ==> 0 <= i < items.len(),
        strongest_index(items) is None <==> items.len() == 0,
    decreases items.len(),
{
    if items.len() > 0 {
        lemma_strongest_in_range(items.drop_last());
    }
}

/// The strongest signal has the highest score of all, and every signal
/// after it scores strictly less (the last of the equally strongest is
/// taken); there is one exactly when there is any signal.
pub proof fn law_strongest_has_highest_score(items: Seq<WhaleSignalFacts>)
    ensures
        strongest_index(items) is None <==> items.len() == 0,
        strongest_index(items) matches Some(i) ==> {
            &&& 0 <= i < items.len()
            &&& forall|j: int| 0 <= j < items.len() ==> #[trigger] items[j].score <= items[i].score
            &&& forall|j: int| i < j < items.len() ==> #[trigger] items[j].score < items[i].score
        },
    decreases items.len(),
{
    lemma_strongest_in_range(items);
    if items.len() > 0 {
        let rest = items.drop_last();
        law_strongest_has_highest_score(rest);
        lemma_strongest_in_range(rest);
        if let Some(i) = strongest_index(items) {
            assert forall|j: int| 0 <= j < items.len() implies #[trigger] items[j].score
                <= items[i].score by {
                if j < items.len() - 1 {
                    assert(items[j] == rest[j]);
                }
                if let Some(k) = strongest_index(rest) {
                    assert(items[k] == rest[k]);
                    if j < items.len() - 1 {
                        assert(rest[j].score <= rest[k].score);
                    }
                }
            }
            assert forall|j: int| i < j < items.len() implies #[trigger] items[j].score
                < items[i].score by {
                if let Some(k) = strongest_index(rest) {
                    assert(items[k] == rest[k]);
                    if j < items.len() - 1 {
                        assert(items[j] == rest[j]);
                    }
                }
            }
        }
    }
}

/// The index of the strongest of `items`; see `strongest_index`.
pub fn strongest_signal_index(items: &Vec<WhaleSignalFacts>) -> (r: Option<usize>)
    ensures
        match r {
            Some(i) => strongest_index(items@) == Some(i as int) && i < items@.len(),
            None => strongest_index(items@) is None && items@.len() == 0,
        },
{
    let ghost all = items@;
    let mut best: Option<usize> = None;
    let mut i: usize = 0;
    while i < items.len()
        invariant
            all == items@,
            i <= all.len(),
            match best {
                Some(b) => strongest_index(all.take(i as int)) == Some(b as int) && b < i,
                None => strongest_index(all.take(i as int)) is None && i == 0,
            },
        decreases items.len() - i,
    {
        proof {
            assert(all.take(i + 1).drop_last() =~= all.take(i as int));
            assert(all.take(i + 1).last() == all[i as int]);
            if let Some(b) = best {
                assert(all.take(i as int)[b as int] == all[b as int]);
            }
        }
        best = match best {
            None => Some(i),
            Some(b) => if items[i].score >= items[b].score {
                Some(i)
            } else {
                Some(b)
            },
        };
        i = i + 1;
    }
    proof {
        assert(all.take(i as int) =~= all);
    }
    best
}

/// The spot score counts unless it is switched off or the spot market is
/// disabled or has no sample.
pub open spec fn counted_spot_score(spot: SpotContextFacts, spot_score_enabled: bool) -> u8 {
    if !spot_score_enabled || spot.status@ == "disabled"@ || spot.status@ == "no_spot_sample"@ {
        0
    } else {
        spot.score
    }
}

/// The main-force score: four tenths each of the spot and contract scores
/// and two tenths of the cross confirmation, rounded, at most 100.
pub open spec fn main_force_of(spot_score: int, contract_score: int, cross: int) -> int {
    let q = (4 * spot_score + 4 * contract_score + 2 * cross + 5) / 10;
    if q > 100 {
        100
    } else {
        q
    }
}

/// The main-force score never exceeds 100, never falls when any of its
/// three inputs rises, and weighs the spot and contract scores alike.
pub proof fn law_main_force_score_shape(
    spot: int,
    contract: int,
    cross: int,
    spot2: int,
    contract2: int,
    cross2: int,
)
    requires
        0 <= spot,
        0 <= contract,
        0 <= cross,
    ensures
        0 <= main_force_of(spot, contract, cross) <= 100,
        main_force_of(spot, contract, cross) == main_force_of(contract, spot, cross),
        spot <= spot2 && contract <= contract2 && cross <= cross2 ==> main_force_of(
            spot,
            contract,
            cross,
        ) <= main_force_of(spot2, contract2, cross2),
{
}

/// The view of `signal` against the spot context.
pub open spec fn lite_ok(
    r: ContractWhaleMarketStructureLite,
    signal: WhaleSignalFacts,
    spot: SpotContextFacts,
    data_quality: u8,
    contract_score_enabled: bool,
    spot_score_enabled: bool,
    confidence: u8,
) -> bool {
    let conf = spot.confirmation_type@;
    let cross = cross_confirm(conf);
    &&& r.contract_score == if contract_score_enabled {
        signal.score
    } else {
        0u8
    }
    &&& r.spot_score == counted_spot_score(spot, spot_score_enabled)
    &&& r.cross_confirm_score == cross
    &&& r.main_force_score == main_force_of(r.spot_score as int, r.contract_score as int, cross as int)
    &&& r.extreme_impact_score == extreme_impact(signal)
    &&& r.structure_bias == bias_of(signal, conf)
    &&& r.main_force_confirmed == (r.main_force_score >= 75 && data_quality >= 70 && cross >= 60)
    &&& r.extreme_impact_confirmed == (r.extreme_impact_score >= 85 && data_quality >= 70)
    &&& r.regime_type@ == regime_of(signal, conf)
    &&& r.status@ == if r.main_force_confirmed || r.extreme_impact_confirmed {
        "confirmed"@
    } else if r.main_force_score >= 55 || r.extreme_impact_score >= 65 {
        "watch"@
    } else {
        "calm"@
    }
    &&& r.confidence == confidence
    &&& r.data_quality == data_quality
    &&& r.reason@ == reason_of(regime_of(signal, conf), conf)
}

/// The view with no signal: calm, unclear, every score zero.
pub open spec fn calm_lite(r: ContractWhaleMarketStructureLite, data_quality: u8) -> bool {
    &&& r.status@ == "calm"@
    &&& r.regime_type@ == "unclear"@
    &&& r.data_quality == data_quality
    &&& r.main_force_score == 0
    &&& r.extreme_impact_score == 0
    &&& r.structure_bias == 0
    &&& r.confidence == 0
    &&& r.spot_score == 0
    &&& r.contract_score == 0
    &&& r.cross_confirm_score == 0
    &&& !r.main_force_confirmed
    &&& !r.extreme_impact_confirmed
    &&& r.reason@ == "暂无 CWM 主力合约信号，结构评分保持观察。"@
}

fn lite_of(
    signal: &WhaleSignalFacts,
    spot: &SpotContextFacts,
    data_quality: u8,
    contract_score_enabled: bool,
    spot_score_enabled: bool,
    confidence: u8,
) -> (r: ContractWhaleMarketStructureLite)
    ensures
        lite_ok(
            r,
            *signal,
            *spot,
            data_quality,
            contract_score_enabled,
            spot_score_enabled,
            confidence,
        ),
{
    let contract_score: u8 = if contract_score_enabled {
        signal.score
    } else {
        0
    };
    let st = chars_of(spot.status.as_str());
    let spot_score: u8 = if !spot_score_enabled || eq_str(&st, "disabled") || eq_str(
        &st,
        "no_spot_sample",
    ) {
        0
    } else {
        spot.score
    };
    let conf = spot.confirmation_type.as_str();
    let cross = cross_confirm_score(conf);
    let raw: u32 = (4 * (spot_score as u32) + 4 * (contract_score as u32) + 2 * (cross as u32) + 5)
        / 10;
    let main_force_score: u8 = if raw > 100 {
        100
    } else {
        raw as u8
    };
    let extreme = extreme_impact_score(signal);
    let bias = structure_bias(signal, conf);
    let main_force_confirmed = main_force_score >= 75 && data_quality >= 70 && cross >= 60;
    let extreme_impact_confirmed = extreme >= 85 && data_quality >= 70;
    let regime = market_regime_type(signal, conf);
    let status = if main_force_confirmed || extreme_impact_confirmed {
        "confirmed"
    } else if main_force_score >= 55 || extreme >= 65 {
        "watch"
    } else {
        "calm"
    };
    ContractWhaleMarketStructureLite {
        status: String::from_str(status),
        regime_type: String::from_str(regime),
        main_force_score,
        extreme_impact_score: extreme,
        structure_bias: bias,
        confidence,
        data_quality,
        spot_score,
        contract_score,
        cross_confirm_score: cross,
        main_force_confirmed,
        extreme_impact_confirmed,
        reason: market_structure_reason(regime, conf),
    }
}

/// The light market-structure view of `items` against the spot context:
/// calm without signals, else the strongest signal scored (see `lite_ok`).
/// `confidence` is the confidence figure of the strongest signal, which the
/// caller weighs from the data quality, the cross confirmation, the
/// exchanges and the score.
pub fn market_structure_lite_from_items(
    items: &Vec<WhaleSignalFacts>,
    spot: &SpotContextFacts,
    data_quality: u8,
    contract_score_enabled: bool,
    spot_score_enabled: bool,
    confidence: u8,
) -> (r: ContractWhaleMarketStructureLite)
    ensures
        match strongest_index(items@) {
            None => calm_lite(r, data_quality),
            Some(i) => lite_ok(
                r,
                items@[i],
                *spot,
                data_quality,
                contract_score_enabled,
                spot_score_enabled,
                confidence,
            ),
        },
{
    match strongest_signal_index(items) {
        None => ContractWhaleMarketStructureLite {
            status: String::from_str("calm"),
            regime_type: String::from_str("unclear"),
            main_force_score: 0,
            extreme_impact_score: 0,
            structure_bias: 0,
            confidence: 0,
            data_quality,
            spot_score: 0,
            contract_score: 0,
            cross_confirm_score: 0,
            main_force_confirmed: false,
            extreme_impact_confirmed: false,
            reason: String::from_str("暂无 CWM 主力合约信号，结构评分保持观察。"),
        },
        Some(i) => lite_of(
            &items[i],
            spot,
            data_quality,
            contract_score_enabled,
            spot_score_enabled,
            confidence,
        ),
    }
}

/// How the spot market bears on a contract signal's direction.
pub open spec fn confirmation_of(contract: Seq<char>, spot: Seq<char>) -> Seq<char> {
    if (contract == "buy"@ && spot == "buy"@) || (contract == "sell"@ && spot == "sell"@) {
        "confirms_contract_direction"@
    } else if contract == "sell"@ && spot == "absorption"@ {
        "spot_absorption_against_contract_sell"@
    } else if contract == "buy"@ && spot == "suppression"@ {
        "spot_resistance_against_contract_buy"@
    } else if (contract == "buy"@ && spot == "sell"@) || (contract == "sell"@ && spot == "buy"@) {
        "spot_divergence"@
    } else {
        "spot_context_only"@
    }
}

pub open spec fn confirmation_status(confirmation: Seq<char>) -> Seq<char> {
    if confirmation == "confirms_contract_direction"@ || confirmation
        == "spot_absorption_against_contract_sell"@ || confirmation
        == "spot_resistance_against_contract_buy"@ {
        "confirmed"@
    } else if confirmation == "spot_divergence"@ {
        "divergent"@
    } else {
        "context"@
    }
}

/// The spot context's status and confirmation type for a contract signal
/// of `direction`: unchanged unless the context is available; then the
/// type says how the spot direction bears on the contract's, and the status
/// whether that confirms, diverges, or is only context.
pub fn spot_confirmation_for_signal(
    direction: ContractWhaleDirection,
    base_status: &str,
    base_direction: &str,
    base_confirmation_type: &str,
) -> (r: (String, String))
    ensures
        base_status@ != "available"@ ==> r.0@ == base_status@ && r.1@ == base_confirmation_type@,
        base_status@ == "available"@ ==> {
            let c = confirmation_of(direction_word(direction), base_direction@);
            r.1@ == c && r.0@ == confirmation_status(c)
        },
{
    proof {
        reveal_strlit("buy");
        reveal_strlit("sell");
        reveal_strlit("absorption");
        reveal_strlit("suppression");
        assert("buy"@.len() != "sell"@.len());
        assert("absorption"@.len() != "sell"@.len() && "absorption"@.len() != "buy"@.len());
        assert("suppression"@.len() != "sell"@.len() && "suppression"@.len() != "buy"@.len());
    }
    if !eq_str(&chars_of(base_status), "available") {
        return (String::from_str(base_status), String::from_str(base_confirmation_type));
    }
    let d = chars_of(base_direction);
    let confirmation = match direction {
        ContractWhaleDirection::Buy => if eq_str(&d, "buy") {
            "confirms_contract_direction"
        } else if eq_str(&d, "suppression") {
            "spot_resistance_against_contract_buy"
        } else if eq_str(&d, "sell") {
            "spot_divergence"
        } else {
            "spot_context_only"
        },
        ContractWhaleDirection::Sell => if eq_str(&d, "sell") {
            "confirms_contract_direction"
        } else if eq_str(&d, "absorption") {
            "spot_absorption_against_contract_sell"
        } else if eq_str(&d, "buy") {
            "spot_divergence"
        } else {
            "spot_context_only"
        },
        _ => "spot_context_only",
    };
    let status = if direction_is_confirming(confirmation) {
        "confirmed"
    } else if eq_str(&chars_of(confirmation), "spot_divergence") {
        "divergent"
    } else {
        "context"
    };
    (String::from_str(status), String::from_str(confirmation))
}

fn direction_is_confirming(confirmation: &str) -> (r: bool)
    ensures
        r == (confirmation@ == "confirms_contract_direction"@ || confirmation@
            == "spot_absorption_against_contract_sell"@ || confirmation@
            == "spot_resistance_against_contract_buy"@),
{
    let c = chars_of(confirmation);
    eq_str(&c, "confirms_contract_direction") || eq_str(&c, "spot_absorption_against_contract_sell")
        || eq_str(&c, "spot_resistance_against_contract_buy")
}

/// The regime named for trade context: the view's regime, else its
/// status, else "unclear".
pub fn trade_regime_context(regime_type: &str, status: &str) -> (r: String)
    ensures
        r@ == if trim(regime_type@).len() > 0 {
            regime_type@
        } else if trim(status@).len() > 0 {
            status@
        } else {
            "unclear"@
        },
{
    if trim_chars(&chars_of(regime_type)).len() > 0 {
        String::from_str(regime_type)
    } else if trim_chars(&chars_of(status)).len() > 0 {
        String::from_str(status)
    } else {
        String::from_str("unclear")
    }
}

/// Direction of a spot-whale signal.
#[derive(Clone, Copy, PartialEq, Eq, Structural, Debug)]
pub enum SpotWhaleDirection {
    Buy,
    Sell,
    Absorption,
    Suppression,
    Dislocation,
}

/// Kind of a spot-whale signal.
#[derive(Clone, Copy, PartialEq, Eq, Structural, Debug)]
pub enum SpotWhaleSignalType {
    SpotAggressiveBuy,
    SpotAggressiveSell,
    SpotDownsideAbsorption,
    SpotUpsideSuppression,
    SpotExchangeDislocation,
}

/// Severity of a spot-whale signal.
#[derive(Clone, Copy, PartialEq, Eq, Structural, Debug)]
pub enum SpotWhaleSeverity {
    Calm,
    Medium,
    High,
    Critical,
    S,
}

/// The key of a spot direction.
pub fn spot_direction_key(direction: SpotWhaleDirection) -> (r: &'static str)
    ensures
        r@ == match direction {
            SpotWhaleDirection::Buy => "buy"@,
            SpotWhaleDirection::Sell => "sell"@,
            SpotWhaleDirection::Absorption => "absorption"@,
            SpotWhaleDirection::Suppression => "suppression"@,
            SpotWhaleDirection::Dislocation => "dislocation"@,
        },
{
    match direction {
        SpotWhaleDirection::Buy => "buy",
        SpotWhaleDirection::Sell => "sell",
        SpotWhaleDirection::Absorption => "absorption",
        SpotWhaleDirection::Suppression => "suppression",
        SpotWhaleDirection::Dislocation => "dislocation",
    }
}

/// The key of a spot signal kind.
pub fn spot_signal_type_key(signal_type: SpotWhaleSignalType) -> (r: &'static str)
    ensures
        r@ == match signal_type {
            SpotWhaleSignalType::SpotAggressiveBuy => "spot_aggressive_buy"@,
            SpotWhaleSignalType::SpotAggressiveSell => "spot_aggressive_sell"@,
            SpotWhaleSignalType::SpotDownsideAbsorption => "spot_downside_absorption"@,
            SpotWhaleSignalType::SpotUpsideSuppression => "spot_upside_suppression"@,
            SpotWhaleSignalType::SpotExchangeDislocation => "spot_exchange_dislocation"@,
        },
{
    match signal_type {
        SpotWhaleSignalType::SpotAggressiveBuy => "spot_aggressive_buy",
        SpotWhaleSignalType::SpotAggressiveSell => "spot_aggressive_sell",
        SpotWhaleSignalType::SpotDownsideAbsorption => "spot_downside_absorption",
        SpotWhaleSignalType::SpotUpsideSuppression => "spot_upside_suppression",
        SpotWhaleSignalType::SpotExchangeDislocation => "spot_exchange_dislocation",
    }
}

/// The key of a spot severity.
pub fn spot_severity_key(severity: SpotWhaleSeverity) -> (r: &'static str)
    ensures
        r@ == match severity {
            SpotWhaleSeverity::Calm => "calm"@,
            SpotWhaleSeverity::Medium => "medium"@,
            SpotWhaleSeverity::High => "high"@,
            SpotWhaleSeverity::Critical => "critical"@,
            SpotWhaleSeverity::S => "s"@,
        },
{
    match severity {
        SpotWhaleSeverity::Calm => "calm",
        SpotWhaleSeverity::Medium => "medium",
        SpotWhaleSeverity::High => "high",
        SpotWhaleSeverity::Critical => "critical",
        SpotWhaleSeverity::S => "s",
    }
}

} // verus!
