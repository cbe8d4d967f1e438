//! Scoping the monitor's one liquidation state to the symbol a request names.
use vstd::prelude::*;

use crate::text::{chars_of, eq_chars, string_of, trim, trim_chars, upper, upper_chars};
use crate::whale_labels::{canonical_base, symbol_base_prefix};

verus! {

/// A liquidation state as the symbol scoping sees it: the symbol it was
/// observed on, whether the estimator runs, its reason codes, when it was
/// taken, and its readings (mid price, clusters, ...), which the scoping
/// hands on whole or drops.
pub struct LiquidationState<M> {
    pub symbol: String,
    pub enabled: bool,
    pub reason_codes: Vec<String>,
    pub updated_at: i64,
    pub readings: Option<M>,
}

/// A state with nothing observed, taken at `now`.
pub fn empty_liquidation_state<M>(now: i64) -> (r: LiquidationState<M>)
    ensures
        r.symbol@ == Seq::<char>::empty(),
        !r.enabled,
        r.reason_codes@.len() == 0,
        r.updated_at == now,
        r.readings is None,
{
    LiquidationState {
        symbol: String::new(),
        enabled: false,
        reason_codes: Vec::new(),
        updated_at: now,
        readings: None,
    }
}

/// The perpetual symbol of a requested one (`ETH` gives `ETH-PERP`); a
/// symbol with no base asset is trimmed and upper-cased instead.
pub open spec fn scoped_symbol(requested: Seq<char>) -> Seq<char> {
    match canonical_base(requested) {
        Some(base) => base + "-PERP"@,
        None => upper(trim(requested)),
    }
}

/// Whether an observed state belongs to the requested symbol: both name a
/// base asset, and it is the same one.
pub open spec fn same_base_asset(requested: Seq<char>, observed: Seq<char>) -> bool {
    canonical_base(requested) is Some && canonical_base(requested) == canonical_base(observed)
}

/// The monitor observes liquidations on one symbol. A request for a symbol
/// of the same base asset gets the observed state unchanged; any other gets
/// an empty state for its own symbol, marked
/// `liquidation_symbol_unavailable`, so that no reading of one asset is
/// shown for another.
pub fn liquidation_state_for_symbol<M>(
    requested_symbol: &str,
    observed_state: LiquidationState<M>,
    now: i64,
) -> (r: LiquidationState<M>)
    ensures
        same_base_asset(requested_symbol@, observed_state.symbol@) ==> r == observed_state,
        !same_base_asset(requested_symbol@, observed_state.symbol@) ==> {
            &&& r.symbol@ == scoped_symbol(requested_symbol@)
            &&& !r.enabled
            &&& r.reason_codes@.len() == 1
            &&& r.reason_codes@[0]@ == "liquidation_symbol_unavailable"@
            &&& r.updated_at == now
            &&& r.readings is None
        },
{
    let requested_base = chars_of(symbol_base_prefix(requested_symbol).as_str());
    let observed_base = chars_of(symbol_base_prefix(observed_state.symbol.as_str()).as_str());
    if requested_base.len() > 0 && eq_chars(&requested_base, &observed_base) {
        return observed_state;
    }
    let mut unavailable = empty_liquidation_state(now);
    let symbol = if requested_base.len() > 0 {
        let mut v = requested_base;
        crate::text::push_str(&mut v, "-PERP");
        v
    } else {
        upper_chars(&trim_chars(&chars_of(requested_symbol)))
    };
    unavailable.symbol = string_of(&symbol);
    let mut codes: Vec<String> = Vec::new();
    codes.push(String::from_str("liquidation_symbol_unavailable"));
    unavailable.reason_codes = codes;
    unavailable
}

} // verus!
