//! The query strings of the smaller read-only routes, and their rules:
//! symbol defaults, the shadow look-back window, the dev test alert checks
//! and the new-token error codes.
use vstd::prelude::*;

use crate::alerts::ToxicSeverity;
use crate::text::{chars_of, lower, trim, trim_chars, string_of};

verus! {

/// The query of the active-trade toxicity routes.
pub struct ActiveTradeQuery {
    pub symbol: Option<String>,
}

/// The query of the altcoin routes.
pub struct AltcoinQuery {
    pub symbol: Option<String>,
}

/// The query of the BTC structure routes.
pub struct BtcStructureQuery {
    pub symbol: Option<String>,
}

/// The query of the fusion routes.
pub struct FusionQuery {
    pub symbol: Option<String>,
}

/// The query of the market regime routes.
pub struct MarketRegimeQuery {
    pub symbol: Option<String>,
}

/// The query of the liquidation cascade routes.
pub struct LiquidationCascadeQuery {
    pub symbol: Option<String>,
}

/// The query of the liquidation toxicity route.
pub struct LiquidationToxicityQuery {
    pub symbol: Option<String>,
}

/// The query of the orderbook wall interpretation route.
pub struct OrderbookWallInterpretationQuery {
    pub symbol: Option<String>,
}

/// The query of the orderbook wall lifecycle route.
pub struct OrderbookWallQuery {
    pub symbol: Option<String>,
}

/// The query of the durable archive dry-run route.
pub struct DurableArchiveDryRunQuery {
    pub symbol: Option<String>,
}

/// The query of the new-token reconstruction and chart routes.
pub struct NewTokenReconstructionQuery {
    pub symbol: String,
    pub tf: Option<String>,
}

/// The query of the new-token stream route.
pub struct NewTokenStreamQuery {
    pub symbol: String,
}

/// The query of the new-token outcomes route.
pub struct NewTokenOutcomesQuery {
    pub symbol: String,
    pub limit: Option<usize>,
}

/// The symbol a route serves: the one asked for, else the configured one.
pub fn requested_symbol(symbol: &Option<String>, configured: &str) -> (r: String)
    ensures
        r@ == match symbol {
            Some(s) => s@,
            None => configured@,
        },
{
    match symbol {
        Some(s) => s.clone(),
        None => String::from_str(configured),
    }
}

/// The timeframe of a reconstruction: the one asked for, else 15m.
pub fn reconstruction_timeframe(query: &NewTokenReconstructionQuery) -> (r: &str)
    ensures
        r@ == match query.tf {
            Some(t) => t@,
            None => "15m"@,
        },
{
    match &query.tf {
        Some(t) => t.as_str(),
        None => "15m",
    }
}

/// How many outcomes are listed: the number asked for, else 100.
pub fn outcomes_limit(query: &NewTokenOutcomesQuery) -> (r: usize)
    ensures
        r == match query.limit {
            Some(n) => n,
            None => 100,
        },
{
    match query.limit {
        Some(n) => n,
        None => 100,
    }
}

// ---------------------------------------------------------------------------
// Shadow candidates
// ---------------------------------------------------------------------------

/// The query of the shadow candidates route.
pub struct ShadowQuery {
    pub symbol: Option<String>,
    pub lookback_min: Option<u64>,
    pub limit: Option<usize>,
}

/// The shadow candidates of a symbol.
pub struct ShadowResponse<C> {
    pub lane: &'static str,
    pub read_only: bool,
    pub analysis_only: bool,
    pub execution_enabled: bool,
    pub data_state: &'static str,
    pub lookback_min: u64,
    pub items: Vec<C>,
}

/// What the shadow route reads: minutes of look-back, number of items, and
/// the start of the window.
pub struct ShadowWindow {
    pub lookback_min: u64,
    pub limit: usize,
    pub from_ms: i64,
}

pub open spec fn clamp_u64(v: u64, lo: u64, hi: u64) -> u64 {
    if v < lo {
        lo
    } else if v > hi {
        hi
    } else {
        v
    }
}

/// The window of a shadow request at `now`: 15 to 60 minutes (default 60),
/// 1 to 100 items (default 50), from `now` minus the look-back.
pub fn shadow_window(query: &ShadowQuery, now: i64) -> (r: ShadowWindow)
    ensures
        r.lookback_min == clamp_u64(
            match query.lookback_min {
                Some(v) => v,
                None => 60,
            },
            15,
            60,
        ),
        r.limit == match query.limit {
            Some(n) => if n < 1 {
                1
            } else if n > 100 {
                100
            } else {
                n
            },
            None => 50,
        },
        r.from_ms == crate::orderflow::sat_sub(now as int, r.lookback_min * 60_000),
{
    let raw = match query.lookback_min {
        Some(v) => v,
        None => 60,
    };
    let lookback_min: u64 = if raw < 15 {
        15
    } else if raw > 60 {
        60
    } else {
        raw
    };
    let raw_limit = match query.limit {
        Some(n) => n,
        None => 50,
    };
    let limit: usize = if raw_limit < 1 {
        1
    } else if raw_limit > 100 {
        100
    } else {
        raw_limit
    };
    let span: i64 = (lookback_min as i64) * 60_000;
    ShadowWindow {
        lookback_min,
        limit,
        from_ms: crate::orderflow::saturating_sub_i64(now, span),
    }
}

/// The response of the shadow route: read-only analysis, "empty" or
/// "available" by whether there are items.
pub fn shadow_response<C>(items: Vec<C>, lookback_min: u64) -> (r: ShadowResponse<C>)
    ensures
        r.lane@ == "shadow"@,
        r.read_only && r.analysis_only && !r.execution_enabled,
        r.data_state@ == if items@.len() == 0 {
            "empty"@
        } else {
            "available"@
        },
        r.lookback_min == lookback_min,
        r.items == items,
{
    let data_state = if items.len() == 0 {
        "empty"
    } else {
        "available"
    };
    ShadowResponse {
        lane: "shadow",
        read_only: true,
        analysis_only: true,
        execution_enabled: false,
        data_state,
        lookback_min,
        items,
    }
}

// ---------------------------------------------------------------------------
// Dev test alerts
// ---------------------------------------------------------------------------

/// The severity an operator asks a test alert for.
#[derive(PartialEq, Eq, Structural, Clone, Copy, Debug)]
pub enum DevTestAlertSeverity {
    Info,
    Warning,
    Critical,
}

/// A test alert asked for by an operator.
pub struct DevTestSidecarAlertRequest {
    pub severity: DevTestAlertSeverity,
    /// The key of the venue named in the alert.
    pub venue: String,
    pub symbol: String,
    pub dedupe_suffix: String,
}

/// The toxic-flow severity of a test alert: watch, warning or alert.
pub fn map_dev_test_severity(severity: DevTestAlertSeverity) -> (r: ToxicSeverity)
    ensures
        r == match severity {
            DevTestAlertSeverity::Info => ToxicSeverity::Watch,
            DevTestAlertSeverity::Warning => ToxicSeverity::Warning,
            DevTestAlertSeverity::Critical => ToxicSeverity::Alert,
        },
{
    match severity {
        DevTestAlertSeverity::Info => ToxicSeverity::Watch,
        DevTestAlertSeverity::Warning => ToxicSeverity::Warning,
        DevTestAlertSeverity::Critical => ToxicSeverity::Alert,
    }
}

/// Test alerts are on when the switch reads `true`, ignoring case.
pub fn dev_test_alerts_enabled(value: Option<&str>) -> (r: bool)
    ensures
        r == (value matches Some(v) && lower(v@) == "true"@),
{
    crate::alerts::parse_sidecar_enabled(value)
}

/// A checked test alert request: its severity, trimmed symbol and suffix.
pub struct DevTestAlertPlan {
    pub severity: ToxicSeverity,
    pub symbol: String,
    pub dedupe_suffix: String,
}

/// Checks a test alert request: test alerts must be on (else 404
/// "dev_test_alerts_disabled"), and the symbol and suffix must not be blank
/// (else 400 "symbol_and_dedupe_suffix_are_required").
pub fn dev_test_alert_check(enabled: bool, body: &DevTestSidecarAlertRequest) -> (r: Result<
    DevTestAlertPlan,
    (u16, &'static str),
>)
    ensures
        !enabled ==> r == Err::<DevTestAlertPlan, (u16, &'static str)>((404, "dev_test_alerts_disabled")),
        enabled && (trim(body.symbol@).len() == 0 || trim(body.dedupe_suffix@).len() == 0) ==> r
            == Err::<DevTestAlertPlan, (u16, &'static str)>(
            (400, "symbol_and_dedupe_suffix_are_required"),
        ),
        enabled && trim(body.symbol@).len() > 0 && trim(body.dedupe_suffix@).len() > 0 ==> (
        r matches Ok(p) && p.symbol@ == trim(body.symbol@) && p.dedupe_suffix@ == trim(
            body.dedupe_suffix@,
        ) && p.severity == match body.severity {
            DevTestAlertSeverity::Info => ToxicSeverity::Watch,
            DevTestAlertSeverity::Warning => ToxicSeverity::Warning,
            DevTestAlertSeverity::Critical => ToxicSeverity::Alert,
        }),
{
    if !enabled {
        return Err((404, "dev_test_alerts_disabled"));
    }
    let symbol = trim_chars(&chars_of(body.symbol.as_str()));
    let suffix = trim_chars(&chars_of(body.dedupe_suffix.as_str()));
    if symbol.len() == 0 || suffix.len() == 0 {
        return Err((400, "symbol_and_dedupe_suffix_are_required"));
    }
    Ok(
        DevTestAlertPlan {
            severity: map_dev_test_severity(body.severity),
            symbol: string_of(&symbol),
            dedupe_suffix: string_of(&suffix),
        },
    )
}

// ---------------------------------------------------------------------------
// New-token watch
// ---------------------------------------------------------------------------

/// Why a new-token watch operation failed.
#[derive(PartialEq, Eq, Structural, Clone, Copy, Debug)]
pub enum TokenWatchError {
    InvalidSymbol,
    MaxActiveTokensReached,
    TokenNotFound,
    PersistenceFailed,
}

/// The HTTP status of a watch error: 400, 409, 404 or 500.
pub fn token_error_status(error: TokenWatchError) -> (r: u16)
    ensures
        r == match error {
            TokenWatchError::InvalidSymbol => 400u16,
            TokenWatchError::MaxActiveTokensReached => 409u16,
            TokenWatchError::TokenNotFound => 404u16,
            TokenWatchError::PersistenceFailed => 500u16,
        },
{
    match error {
        TokenWatchError::InvalidSymbol => 400,
        TokenWatchError::MaxActiveTokensReached => 409,
        TokenWatchError::TokenNotFound => 404,
        TokenWatchError::PersistenceFailed => 500,
    }
}

/// The refusal of a mutation without operator rights: 403
/// "operator_token_missing" when no operator token is configured, 401
/// "operator_token_required" when the request does not carry it.
pub fn operator_refusal(token_configured: bool, authorized: bool) -> (r: Option<(u16, &'static str)>)
    ensures
        !token_configured ==> r == Some((403u16, "operator_token_missing")),
        token_configured && !authorized ==> r == Some((401u16, "operator_token_required")),
        token_configured && authorized ==> r is None,
{
    if !token_configured {
        return Some((403, "operator_token_missing"));
    }
    if !authorized {
        return Some((401, "operator_token_required"));
    }
    None
}

/// A calibration report id names a report file safely: it starts with
/// `calibration-` and holds no `..`, `\\` or `/`.
pub open spec fn report_id_ok(id: Seq<char>) -> bool {
    &&& crate::text::starts_with(id, "calibration-"@)
    &&& !crate::text::contains(id, ".."@)
    &&& !crate::text::contains(id, "\\"@)
    &&& !crate::text::contains(id, "/"@)
}

pub fn valid_report_id(report_id: &str) -> (r: bool)
    ensures
        r == report_id_ok(report_id@),
{
    let v = chars_of(report_id);
    crate::text::starts_with_str(&v, "calibration-") && !crate::text::contains_str(&v, "..")
        && !crate::text::contains_str(&v, "\\") && !crate::text::contains_str(&v, "/")
}

} // verus!
