//! Query parsing of the main-force events route.
use vstd::prelude::*;

use crate::keyed::{lemma_key_lt_at, lemma_push_ascending, Keyed};
use crate::projection::key_lt;
use crate::query_parse::{
    limit_spec, offset_spec, opt_bool_spec, opt_i64_spec, opt_view, parse_limit_value,
    parse_offset_value, parse_opt_bool_value, parse_opt_i64_value, present, present_exec,
};
use crate::text::{chars_of, lower, lower_chars, string_of, upper, upper_chars};

verus! {

/// The raw query string of the main-force events route.
pub struct MainForceEventsQuery {
    pub symbol: Option<String>,
    pub regime_type: Option<String>,
    pub severity: Option<String>,
    pub active: Option<String>,
    pub from: Option<String>,
    pub to: Option<String>,
    pub limit: Option<String>,
    pub offset: Option<String>,
}

/// The repository query the route runs.
pub struct MainForceEventQuery {
    pub symbol: Option<String>,
    pub regime_type: Option<String>,
    pub severity: Option<String>,
    pub active_only: Option<bool>,
    pub from_ts: Option<i64>,
    pub to_ts: Option<i64>,
    pub limit: usize,
    pub offset: usize,
}

pub open spec fn opt_string_view(o: Option<String>) -> Option<Seq<char>> {
    match o {
        Some(s) => Some(s@),
        None => None,
    }
}

pub open spec fn lowered(o: Option<Seq<char>>) -> Option<Seq<char>> {
    match o {
        Some(v) => Some(lower(v)),
        None => None,
    }
}

pub open spec fn flatten_ok<T>(r: Option<Option<T>>) -> Option<T> {
    match r {
        Some(Some(v)) => Some(v),
        _ => None,
    }
}

pub open spec fn or_else(o: Option<int>, default: int) -> int {
    match o {
        Some(v) => v,
        None => default,
    }
}

/// The symbol a request asks for: the trimmed symbol, unless blank, else
/// the fallback; upper-cased.
pub open spec fn requested_symbol(symbol: Option<Seq<char>>, fallback: Seq<char>) -> Seq<char> {
    upper(
        match present(symbol) {
            Some(s) => s,
            None => fallback,
        },
    )
}

pub fn normalize_symbol(symbol: Option<&str>, fallback: &str) -> (r: String)
    ensures
        r@ == requested_symbol(opt_view(symbol), fallback@),
{
    let chosen = match present_exec(symbol) {
        Some(s) => s,
        None => chars_of(fallback),
    };
    string_of(&upper_chars(&chosen))
}

fn opt_str_of(o: &Option<String>) -> (r: Option<&str>)
    ensures
        opt_view(r) == opt_string_view(*o),
{
    match o {
        Some(s) => Some(s.as_str()),
        None => None,
    }
}

fn lowered_present(value: Option<&str>) -> (r: Option<String>)
    ensures
        opt_string_view(r) == lowered(present(opt_view(value))),
{
    match present_exec(value) {
        Some(v) => Some(string_of(&lower_chars(&v))),
        None => None,
    }
}

/// Builds the repository query: the requested symbol, lower-cased trimmed
/// regime and severity filters, optional flags and bounds (an unreadable
/// one is dropped), a limit defaulting to 20 and clamped to `1..=100`, and
/// an offset defaulting to 0.
pub fn parse_main_force_query(query: &MainForceEventsQuery, requested_symbol: &str) -> (r: Result<
    MainForceEventQuery,
    (),
>)
    ensures
        r matches Ok(q) && {
            &&& opt_string_view(q.symbol) == Some(requested_symbol@)
            &&& opt_string_view(q.regime_type) == lowered(present(opt_string_view(query.regime_type)))
            &&& opt_string_view(q.severity) == lowered(present(opt_string_view(query.severity)))
            &&& q.active_only == flatten_ok(opt_bool_spec(opt_string_view(query.active)))
            &&& match q.from_ts {
                Some(v) => flatten_ok(opt_i64_spec(opt_string_view(query.from))) == Some(v as int),
                None => flatten_ok(opt_i64_spec(opt_string_view(query.from))) is None,
            }
            &&& match q.to_ts {
                Some(v) => flatten_ok(opt_i64_spec(opt_string_view(query.to))) == Some(v as int),
                None => flatten_ok(opt_i64_spec(opt_string_view(query.to))) is None,
            }
            &&& q.limit == or_else(limit_spec(opt_string_view(query.limit), 20, 100), 20)
            &&& q.offset == or_else(offset_spec(opt_string_view(query.offset)), 0)
        },
{
    let active_only = match parse_opt_bool_value(opt_str_of(&query.active)) {
        Some(Some(b)) => Some(b),
        _ => None,
    };
    let from_ts = match parse_opt_i64_value(opt_str_of(&query.from)) {
        Some(Some(v)) => Some(v),
        _ => None,
    };
    let to_ts = match parse_opt_i64_value(opt_str_of(&query.to)) {
        Some(Some(v)) => Some(v),
        _ => None,
    };
    let limit = match parse_limit_value(opt_str_of(&query.limit), 20, 100) {
        Some(n) => n,
        None => 20,
    };
    let offset = match parse_offset_value(opt_str_of(&query.offset)) {
        Some(n) => n,
        None => 0,
    };
    Ok(MainForceEventQuery {
        symbol: Some(String::from_str(requested_symbol)),
        regime_type: lowered_present(opt_str_of(&query.regime_type)),
        severity: lowered_present(opt_str_of(&query.severity)),
        active_only,
        from_ts,
        to_ts,
        limit,
        offset,
    })
}

pub fn parse_limit(value: Option<&str>, default: usize, max: usize) -> (r: Result<usize, ()>)
    requires
        1 <= max,
    ensures
        match r {
            Ok(n) => limit_spec(opt_view(value), default as int, max as int) == Some(n as int),
            Err(()) => limit_spec(opt_view(value), default as int, max as int) is None,
        },
{
    match parse_limit_value(value, default, max) {
        Some(n) => Ok(n),
        None => Err(()),
    }
}

pub fn parse_optional_usize(value: Option<&str>) -> (r: Result<usize, ()>)
    ensures
        match r {
            Ok(n) => offset_spec(opt_view(value)) == Some(n as int),
            Err(()) => offset_spec(opt_view(value)) is None,
        },
{
    match parse_offset_value(value) {
        Some(n) => Ok(n),
        None => Err(()),
    }
}

pub fn parse_optional_i64(value: Option<&str>) -> (r: Result<Option<i64>, ()>)
    ensures
        match r {
            Ok(Some(n)) => opt_i64_spec(opt_view(value)) == Some(Some(n as int)),
            Ok(None) => opt_i64_spec(opt_view(value)) == Some(None::<int>),
            Err(()) => opt_i64_spec(opt_view(value)) is None,
        },
{
    match parse_opt_i64_value(value) {
        Some(v) => Ok(v),
        None => Err(()),
    }
}

pub fn parse_optional_bool(value: Option<&str>) -> (r: Result<Option<bool>, ()>)
    ensures
        match r {
            Ok(v) => opt_bool_spec(opt_view(value)) == Some(v),
            Err(()) => opt_bool_spec(opt_view(value)) is None,
        },
{
    match parse_opt_bool_value(value) {
        Some(v) => Ok(v),
        None => Err(()),
    }
}

/// The filter echoed back by the route, in key order: `active` as given
/// (when not empty), `readOnly` = "true", the trimmed `regimeType` and
/// `severity` (when not blank), and the symbol.
pub fn filter_map(symbol: &str, query: &MainForceEventsQuery) -> (r: Keyed<String>)
    ensures
        r.wf(),
        crate::keyed::keys_ascending(r.entries@),
        r.view().contains_key("symbol"@) && r.view()["symbol"@]@ == symbol@,
        r.view().contains_key("readOnly"@) && r.view()["readOnly"@]@ == "true"@,
        r.view().contains_key("active"@) <==> (query.active matches Some(a) && a@.len() > 0),
        query.active matches Some(a) ==> (a@.len() > 0 ==> r.view()["active"@] == a),
        r.view().contains_key("regimeType"@) <==> present(opt_string_view(query.regime_type)) is Some,
        present(opt_string_view(query.regime_type)) matches Some(v) ==> r.view()["regimeType"@]@
            == v,
        r.view().contains_key("severity"@) <==> present(opt_string_view(query.severity)) is Some,
        present(opt_string_view(query.severity)) matches Some(v) ==> r.view()["severity"@]@ == v,
        r.view().dom().len() == 2 + (if query.active matches Some(a) && a@.len() > 0 {
            1int
        } else {
            0
        }) + (if present(opt_string_view(query.regime_type)) is Some {
            1int
        } else {
            0
        }) + (if present(opt_string_view(query.severity)) is Some {
            1int
        } else {
            0
        }),
{
    proof {
        reveal_strlit("symbol");
        reveal_strlit("readOnly");
        reveal_strlit("active");
        reveal_strlit("regimeType");
        reveal_strlit("severity");
        reveal_strlit("true");
        assert("active"@[0] != "readOnly"@[0] && "active"@[0] != "regimeType"@[0]
            && "active"@[0] != "severity"@[0] && "active"@[0] != "symbol"@[0]);
        assert("readOnly"@.len() != "regimeType"@.len() && "readOnly"@[0] != "severity"@[0]
            && "readOnly"@[0] != "symbol"@[0]);
        assert("regimeType"@[0] != "severity"@[0] && "regimeType"@[0] != "symbol"@[0]);
        assert("severity"@.len() != "symbol"@.len());
        let ks = seq!["active"@, "readOnly"@, "regimeType"@, "severity"@, "symbol"@];
        assert forall|i: int, j: int|
            0 <= i < j < 5 && !(i == 1 && j == 2) && !(i == 3 && j == 4) implies key_lt(
            #[trigger] ks[i],
            #[trigger] ks[j],
        ) by {
            lemma_key_lt_at(ks[i], ks[j], 0);
        }
        lemma_key_lt_at("readOnly"@, "regimeType"@, 2);
        lemma_key_lt_at("severity"@, "symbol"@, 1);
    }
    let mut filter: Keyed<String> = Keyed::new();
    if let Some(active) = &query.active {
        if active.as_str().unicode_len() > 0 {
            filter.insert(String::from_str("active"), active.clone());
        }
    }
    let ghost e1 = filter.entries@;
    assert(forall|i: int| 0 <= i < e1.len() ==> #[trigger] e1[i].0@ == "active"@);
    filter.insert(String::from_str("readOnly"), String::from_str("true"));
    proof {
        lemma_push_ascending(e1, filter.entries@.last());
    }
    let ghost e2 = filter.entries@;
    assert(forall|i: int| 0 <= i < e2.len() ==> #[trigger] e2[i].0@ == "active"@ || e2[i].0@ == "readOnly"@);
    if let Some(regime) = present_exec(opt_str_of(&query.regime_type)) {
        filter.insert(String::from_str("regimeType"), string_of(&regime));
        proof {
            lemma_push_ascending(e2, filter.entries@.last());
        }
    }
    let ghost e3 = filter.entries@;
    assert(forall|i: int| 0 <= i < e3.len() ==> #[trigger] e3[i].0@ == "active"@ || e3[i].0@ == "readOnly"@ || e3[i].0@ == "regimeType"@);
    if let Some(severity) = present_exec(opt_str_of(&query.severity)) {
        filter.insert(String::from_str("severity"), string_of(&severity));
        proof {
            lemma_push_ascending(e3, filter.entries@.last());
        }
    }
    let ghost e4 = filter.entries@;
    assert(forall|i: int| 0 <= i < e4.len() ==> #[trigger] e4[i].0@ == "active"@ || e4[i].0@ == "readOnly"@ || e4[i].0@ == "regimeType"@ || e4[i].0@ == "severity"@);
    filter.insert(String::from_str("symbol"), String::from_str(symbol));
    proof {
        lemma_push_ascending(e4, filter.entries@.last());
        crate::keyed::lemma_entries_map(filter.entries@);
    }
    filter
}

} // verus!
