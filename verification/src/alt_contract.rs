//! Query parsing of the Binance altcoin-contract routes.
use vstd::prelude::*;

use crate::query_parse::{clamp_spec, clamp_usize, opt_view, present, present_exec, RequestRejection};
use crate::text::{
    all_ascii_alnum, all_ascii_alnum_exec, chars_of, eq_ignore_case_str, eq_str, lower, parse_u8,
    parse_unsigned, parse_usize, push_str, string_of, trim, trim_chars, trim_end_matches,
    trim_end_matches_str, upper, upper_chars,
};
use crate::whale_query::opt_string_view;

verus! {

/// The raw query string of the altcoin-contract routes.
pub struct BinanceAltContractApiQuery {
    pub symbol: Option<String>,
    pub limit: Option<String>,
    pub severity: Option<String>,
    /// The `type` parameter, an alias of `signal_type`.
    pub signal_type_alias: Option<String>,
    pub signal_type: Option<String>,
    pub direction: Option<String>,
    pub would_send: Option<String>,
    pub liquidation: Option<String>,
    /// The `liquidationDriven` parameter, preferred to `liquidation`.
    pub liquidation_driven: Option<String>,
    pub tier: Option<String>,
    pub min_build_score: Option<String>,
}

/// The history query of the altcoin-contract service.
pub struct BinanceAltContractQuery {
    pub symbol: Option<String>,
    pub severity: Option<String>,
    pub signal_type: Option<String>,
    pub direction: Option<String>,
    pub would_send: Option<bool>,
    pub liquidation: Option<bool>,
    pub tier: Option<String>,
    pub min_build_score: Option<u8>,
    pub limit: Option<usize>,
}

/// A rejection with this reason and message.
pub open spec fn rejected_with(e: RequestRejection, reason: Seq<char>, message: Seq<char>) -> bool {
    e.reason@ == reason && opt_string_view(e.message) == Some(message)
}

fn bad_request(reason: &str, message: &str) -> (r: RequestRejection)
    ensures
        rejected_with(r, reason@, message@),
{
    RequestRejection { reason: String::from_str(reason), message: Some(String::from_str(message)) }
}

/// An altcoin symbol filter: upper-cased and trimmed; blank or ALL means
/// none; BTC and ETH (with or without USDT) belong to the other monitor;
/// only letters and digits; a USDT suffix is dropped.
pub open spec fn symbol_param(v: Option<Seq<char>>) -> Result<Option<Seq<char>>, (Seq<char>, Seq<char>)> {
    match v {
        None => Ok(None),
        Some(raw) => {
            let s = upper(trim(raw));
            if s.len() == 0 || s == "ALL"@ {
                Ok(None)
            } else if s == "BTC"@ || s == "BTCUSDT"@ || s == "ETH"@ || s == "ETHUSDT"@ {
                Err(
                    (
                        "excluded_symbol"@,
                        "BTC and ETH are handled by the BTC/ETH contract monitor"@,
                    ),
                )
            } else if !all_ascii_alnum(s) {
                Err(("invalid_symbol"@, "symbol must be alphanumeric"@))
            } else {
                Ok(Some(trim_end_matches(s, "USDT"@)))
            }
        },
    }
}

pub fn parse_optional_symbol(value: Option<&str>) -> (r: Result<Option<String>, RequestRejection>)
    ensures
        match r {
            Ok(s) => symbol_param(opt_view(value)) == Ok::<
                Option<Seq<char>>,
                (Seq<char>, Seq<char>),
            >(opt_string_view(s)),
            Err(e) => symbol_param(opt_view(value)) is Err && rejected_with(
                e,
                symbol_param(opt_view(value))->Err_0.0,
                symbol_param(opt_view(value))->Err_0.1,
            ),
        },
{
    let raw = match value {
        None => return Ok(None),
        Some(raw) => raw,
    };
    let s = upper_chars(&trim_chars(&chars_of(raw)));
    if s.len() == 0 || eq_str(&s, "ALL") {
        return Ok(None);
    }
    if eq_str(&s, "BTC") || eq_str(&s, "BTCUSDT") || eq_str(&s, "ETH") || eq_str(&s, "ETHUSDT") {
        return Err(
            bad_request("excluded_symbol", "BTC and ETH are handled by the BTC/ETH contract monitor"),
        );
    }
    if !all_ascii_alnum_exec(&s) {
        return Err(bad_request("invalid_symbol", "symbol must be alphanumeric"));
    }
    Ok(Some(string_of(&trim_end_matches_str(&s, "USDT"))))
}

/// The page size: absent means 50; otherwise the untrimmed text must be a
/// number, clamped to `1..=200`.
pub open spec fn limit_param(v: Option<Seq<char>>) -> Option<int> {
    match v {
        None => Some(50),
        Some(raw) => match parse_unsigned(raw, usize::MAX as int) {
            Some(n) => Some(clamp_spec(n, 1, 200)),
            None => None,
        },
    }
}

pub fn parse_limit(value: Option<&str>) -> (r: Result<usize, RequestRejection>)
    ensures
        match r {
            Ok(n) => limit_param(opt_view(value)) == Some(n as int),
            Err(e) => limit_param(opt_view(value)) is None && rejected_with(
                e,
                "invalid_limit"@,
                "limit must be a positive integer"@,
            ),
        },
{
    match value {
        None => Ok(50),
        Some(raw) => match parse_usize(&chars_of(raw)) {
            Some(n) => Ok(clamp_usize(n, 1, 200)),
            None => Err(bad_request("invalid_limit", "limit must be a positive integer")),
        },
    }
}

/// A boolean filter: absent, blank, `all` or `ALL` means none; `true` (any
/// case) or `1`; `false` (any case) or `0`.
pub open spec fn bool_filter(v: Option<Seq<char>>) -> Option<Option<bool>> {
    match present(v) {
        None => Some(None),
        Some(s) => if s == "all"@ || s == "ALL"@ {
            Some(None)
        } else if lower(s) == "true"@ || s == "1"@ {
            Some(Some(true))
        } else if lower(s) == "false"@ || s == "0"@ {
            Some(Some(false))
        } else {
            None
        },
    }
}

pub fn parse_optional_bool(value: Option<&str>) -> (r: Result<Option<bool>, RequestRejection>)
    ensures
        match r {
            Ok(b) => bool_filter(opt_view(value)) == Some(b),
            Err(e) => bool_filter(opt_view(value)) is None && rejected_with(
                e,
                "invalid_bool_filter"@,
                "boolean filters must be true, false, 1, 0, or all"@,
            ),
        },
{
    proof {
        reveal_strlit("true");
        reveal_strlit("false");
        assert(lower("true"@) =~= "true"@);
        assert(lower("false"@) =~= "false"@);
    }
    match present_exec(value) {
        None => Ok(None),
        Some(s) => if eq_str(&s, "all") || eq_str(&s, "ALL") {
            Ok(None)
        } else if eq_ignore_case_str(&s, "true") || eq_str(&s, "1") {
            Ok(Some(true))
        } else if eq_ignore_case_str(&s, "false") || eq_str(&s, "0") {
            Ok(Some(false))
        } else {
            Err(
                bad_request(
                    "invalid_bool_filter",
                    "boolean filters must be true, false, 1, 0, or all",
                ),
            )
        },
    }
}

/// A byte filter: absent, blank, `all` or `ALL` means none; otherwise a
/// number up to 255.
pub open spec fn u8_filter(v: Option<Seq<char>>) -> Option<Option<int>> {
    match present(v) {
        None => Some(None),
        Some(s) => if s == "all"@ || s == "ALL"@ {
            Some(None)
        } else {
            match parse_unsigned(s, 255) {
                Some(n) => Some(Some(n)),
                None => None,
            }
        },
    }
}

pub open spec fn opt_u8_view(o: Option<u8>) -> Option<int> {
    match o {
        Some(v) => Some(v as int),
        None => None,
    }
}

pub fn parse_optional_u8(value: Option<&str>, name: &str) -> (r: Result<Option<u8>, RequestRejection>)
    ensures
        match r {
            Ok(n) => u8_filter(opt_view(value)) == Some(opt_u8_view(n)),
            Err(e) => u8_filter(opt_view(value)) is None && rejected_with(
                e,
                "invalid_numeric_filter"@,
                name@ + " must be 0-100"@,
            ),
        },
{
    match present_exec(value) {
        None => Ok(None),
        Some(s) => if eq_str(&s, "all") || eq_str(&s, "ALL") {
            Ok(None)
        } else {
            match parse_u8(&s) {
                Some(n) => Ok(Some(n)),
                None => {
                    let mut m = chars_of(name);
                    push_str(&mut m, " must be 0-100");
                    Err(
                        RequestRejection {
                            reason: String::from_str("invalid_numeric_filter"),
                            message: Some(string_of(&m)),
                        },
                    )
                },
            }
        },
    }
}

/// A text filter kept unless it says `all` in any case.
pub open spec fn unless_all(v: Option<Seq<char>>) -> Option<Seq<char>> {
    match v {
        Some(s) => if lower(s) == "all"@ {
            None
        } else {
            Some(s)
        },
        None => None,
    }
}

fn unless_all_exec(v: &Option<String>) -> (r: Option<String>)
    ensures
        opt_string_view(r) == unless_all(opt_string_view(*v)),
{
    proof {
        reveal_strlit("all");
        assert(lower("all"@) =~= "all"@);
    }
    match v {
        Some(s) => if eq_ignore_case_str(&chars_of(s.as_str()), "all") {
            None
        } else {
            Some(s.clone())
        },
        None => None,
    }
}

fn opt_str(o: &Option<String>) -> (r: Option<&str>)
    ensures
        opt_view(r) == opt_string_view(*o),
{
    match o {
        Some(s) => Some(s.as_str()),
        None => None,
    }
}

pub open spec fn or_opt(a: Option<Seq<char>>, b: Option<Seq<char>>) -> Option<Seq<char>> {
    match a {
        Some(x) => Some(x),
        None => b,
    }
}

/// The service query of the history route. Checked in order: symbol,
/// limit, `would_send`, the liquidation flag (`liquidationDriven`, else
/// `liquidation`), `min_build_score`. Text filters saying "all" are
/// dropped; the signal type is `signal_type`, else `type`.
pub fn history_query(query: &BinanceAltContractApiQuery) -> (r: Result<
    BinanceAltContractQuery,
    RequestRejection,
>)
    ensures
        ({
            let sym = symbol_param(opt_string_view(query.symbol));
            let lim = limit_param(opt_string_view(query.limit));
            let ws = bool_filter(opt_string_view(query.would_send));
            let liq = bool_filter(
                or_opt(opt_string_view(query.liquidation_driven), opt_string_view(query.liquidation)),
            );
            let mbs = u8_filter(opt_string_view(query.min_build_score));
            if sym is Err {
                r matches Err(e) && rejected_with(e, sym->Err_0.0, sym->Err_0.1)
            } else if lim is None {
                r matches Err(e) && rejected_with(
                    e,
                    "invalid_limit"@,
                    "limit must be a positive integer"@,
                )
            } else if ws is None || liq is None {
                r matches Err(e) && rejected_with(
                    e,
                    "invalid_bool_filter"@,
                    "boolean filters must be true, false, 1, 0, or all"@,
                )
            } else if mbs is None {
                r matches Err(e) && rejected_with(
                    e,
                    "invalid_numeric_filter"@,
                    "min_build_score must be 0-100"@,
                )
            } else {
                r matches Ok(q) && {
                    &&& opt_string_view(q.symbol) == sym->Ok_0
                    &&& q.limit matches Some(n) && n == lim->Some_0
                    &&& q.would_send == ws->Some_0
                    &&& q.liquidation == liq->Some_0
                    &&& opt_u8_view(q.min_build_score) == mbs->Some_0
                    &&& opt_string_view(q.severity) == unless_all(opt_string_view(query.severity))
                    &&& opt_string_view(q.signal_type) == unless_all(
                        or_opt(
                            opt_string_view(query.signal_type),
                            opt_string_view(query.signal_type_alias),
                        ),
                    )
                    &&& opt_string_view(q.direction) == unless_all(opt_string_view(query.direction))
                    &&& opt_string_view(q.tier) == unless_all(opt_string_view(query.tier))
                }
            }
        }),
{
    let symbol = match parse_optional_symbol(opt_str(&query.symbol)) {
        Ok(s) => s,
        Err(e) => return Err(e),
    };
    let limit = match parse_limit(opt_str(&query.limit)) {
        Ok(n) => n,
        Err(e) => return Err(e),
    };
    let signal_type = match &query.signal_type {
        Some(s) => unless_all_exec(&Some(s.clone())),
        None => unless_all_exec(&query.signal_type_alias),
    };
    let would_send = match parse_optional_bool(opt_str(&query.would_send)) {
        Ok(b) => b,
        Err(e) => return Err(e),
    };
    let liquidation_filter = match &query.liquidation_driven {
        Some(s) => Some(s.as_str()),
        None => opt_str(&query.liquidation),
    };
    let liquidation = match parse_optional_bool(liquidation_filter) {
        Ok(b) => b,
        Err(e) => return Err(e),
    };
    proof {
        reveal_strlit("min_build_score");
        reveal_strlit(" must be 0-100");
        reveal_strlit("min_build_score must be 0-100");
        assert("min_build_score"@ + " must be 0-100"@ =~= "min_build_score must be 0-100"@);
    }
    let min_build_score = match parse_optional_u8(opt_str(&query.min_build_score), "min_build_score")
    {
        Ok(n) => n,
        Err(e) => return Err(e),
    };
    Ok(
        BinanceAltContractQuery {
            symbol,
            severity: unless_all_exec(&query.severity),
            signal_type,
            direction: unless_all_exec(&query.direction),
            would_send,
            liquidation,
            tier: unless_all_exec(&query.tier),
            min_build_score,
            limit: Some(limit),
        },
    )
}

} // verus!
