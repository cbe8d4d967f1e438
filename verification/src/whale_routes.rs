//! The decisions of the latest, trading-decision and intelligence routes of
//! the contract-whale monitor: where the latest signals come from, which of
//! them are fresh, and when a stale snapshot overrides the judgement. The
//! routes' reads (runtime state, store) are the caller's.
use vstd::prelude::*;

use crate::pipeline_debug::PipelineLatestDebug;
use crate::text::push_str;

verus! {

/// The first step of a latest-signals request.
#[derive(PartialEq, Eq, Structural, Clone, Copy, Debug)]
pub enum WhaleRouteStep {
    /// The requested exchange has no perpetual market here: an empty
    /// history response, marked with why.
    MarketMismatch,
    /// The monitor or the symbol is switched off: the runtime response,
    /// marked disabled.
    MonitorDisabled,
    /// Ask the store for the symbol's latest signals, then decide with
    /// [`whale_source_after_store`].
    QueryStore,
    /// No store: the live runtime response, with no stored context.
    LiveRuntime,
}

/// Where the latest signals of a request come from, once the store was
/// asked.
#[derive(PartialEq, Eq, Structural, Clone, Copy, Debug)]
pub enum WhaleSource {
    /// The signals the store returned.
    StoredSignals,
    /// The live runtime, with baselines, liquidations and market context
    /// read from the store.
    LiveRuntimeWithStoreContext,
}

pub open spec fn whale_route_step_spec(
    market_mismatch: bool,
    monitor_enabled: bool,
    symbol_enabled: bool,
    store_present: bool,
) -> WhaleRouteStep {
    if market_mismatch {
        WhaleRouteStep::MarketMismatch
    } else if !monitor_enabled || !symbol_enabled {
        WhaleRouteStep::MonitorDisabled
    } else if store_present {
        WhaleRouteStep::QueryStore
    } else {
        WhaleRouteStep::LiveRuntime
    }
}

/// The first step of a latest-signals request: a market mismatch comes
/// first, then a monitor or symbol switched off, then the store when there
/// is one, else the live runtime.
pub fn whale_route_step(
    market_mismatch: bool,
    monitor_enabled: bool,
    symbol_enabled: bool,
    store_present: bool,
) -> (r: WhaleRouteStep)
    ensures
        r == whale_route_step_spec(market_mismatch, monitor_enabled, symbol_enabled, store_present),
{
    if market_mismatch {
        WhaleRouteStep::MarketMismatch
    } else if !monitor_enabled || !symbol_enabled {
        WhaleRouteStep::MonitorDisabled
    } else if store_present {
        WhaleRouteStep::QueryStore
    } else {
        WhaleRouteStep::LiveRuntime
    }
}

/// Where the signals come from once the store answered: the number of rows
/// it returned, or `None` when the query failed. Only a non-empty answer is
/// used; otherwise the live runtime is served with the store's context.
pub fn whale_source_after_store(stored_rows: Option<usize>) -> (r: WhaleSource)
    ensures
        r == (if stored_rows matches Some(n) && n > 0 {
            WhaleSource::StoredSignals
        } else {
            WhaleSource::LiveRuntimeWithStoreContext
        }),
{
    match stored_rows {
        Some(n) => if n > 0 {
            WhaleSource::StoredSignals
        } else {
            WhaleSource::LiveRuntimeWithStoreContext
        },
        None => WhaleSource::LiveRuntimeWithStoreContext,
    }
}

/// The positions of the latest rows that are not stale, in order.
pub open spec fn fresh_positions_spec(debug: PipelineLatestDebug) -> Seq<usize> {
    fresh_prefix(debug, debug.items@.len() as int)
}

/// The fresh positions among the first `n` rows.
pub open spec fn fresh_prefix(debug: PipelineLatestDebug, n: int) -> Seq<usize>
    decreases n,
{
    if n <= 0 {
        Seq::empty()
    } else if debug.items@[n - 1].is_stale {
        fresh_prefix(debug, n - 1)
    } else {
        fresh_prefix(debug, n - 1).push((n - 1) as usize)
    }
}

/// The positions of the rows whose debug entry is not stale: the rows the
/// trading decision and the intelligence view are built from.
pub fn fresh_positions(debug: &PipelineLatestDebug) -> (r: Vec<usize>)
    ensures
        r@ == fresh_positions_spec(*debug),
{
    let mut out: Vec<usize> = Vec::new();
    let mut i: usize = 0;
    while i < debug.items.len()
        invariant
            i <= debug.items@.len(),
            out@ == fresh_prefix(*debug, i as int),
        decreases debug.items.len() - i,
    {
        if !debug.items[i].is_stale {
            out.push(i);
        }
        i = i + 1;
    }
    out
}

/// Whether the stale snapshot overrides the judgement: no fresh row is left
/// and some rows were dropped as stale (the trading decision then turns
/// `NEUTRAL` and the market regime `RANGING`, at confidence 0).
pub fn stale_override(fresh_count: usize, stale_count: usize) -> (r: bool)
    ensures
        r == (fresh_count == 0 && stale_count > 0),
{
    fresh_count == 0 && stale_count > 0
}

/// The range named in the stale-snapshot reason: the requested one, else
/// `24h`.
pub open spec fn range_or_default(range: Option<Seq<char>>) -> Seq<char> {
    match range {
        Some(r) => r,
        None => "24h"@,
    }
}

/// The reason given when the stale snapshot overrides the judgement: that
/// the symbol's latest is an old snapshot, with no new main-force signal in
/// the range.
pub fn stale_snapshot_reason(symbol: &str, range: Option<&str>) -> (r: String)
    ensures
        r@ == symbol@ + " latest 为旧快照，最近 "@ + range_or_default(
            crate::push_limiter::opt_view(range),
        ) + " 没有新的 "@ + symbol@ + " 主力历史信号。"@,
{
    let mut v = crate::text::chars_of(symbol);
    push_str(&mut v, " latest 为旧快照，最近 ");
    match range {
        Some(r) => push_str(&mut v, r),
        None => push_str(&mut v, "24h"),
    }
    push_str(&mut v, " 没有新的 ");
    push_str(&mut v, symbol);
    push_str(&mut v, " 主力历史信号。");
    crate::text::string_of(&v)
}

} // verus!
