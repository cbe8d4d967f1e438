//! Query parsing of the contract-whale history routes: filters, paging,
//! time bounds and the opaque history cursor.
use vstd::prelude::*;
use vstd::utf8::{decode_utf8, encode_scalar, encode_utf8, valid_utf8};

use crate::codec::{base64_decode, base64_encode, base64_standard_decoded, base64_standard_encoded};
use crate::query_parse::{
    bool_word, bool_word_exec, clamp_spec, clamp_usize, opt_view, present, present_exec,
    RequestRejection,
};
use crate::text::{chars_of, eq_ignore_case_str, eq_str, i64_decimal, int_decimal, is_ascii_alnum, lower, lower_chars, nat_decimal, parse_i64, parse_i64_spec, parse_u64, parse_unsigned, parse_usize, push_str, replace_any, replace_any_exec, string_of, trim, trim_chars, upper, upper_chars};

verus! {

/// The raw query string of the contract-whale routes.
pub struct ContractWhaleQuery {
    pub limit: Option<String>,
    pub symbol: Option<String>,
    pub severity: Option<String>,
    pub signal_type: Option<String>,
    pub direction: Option<String>,
    pub discord_sent: Option<String>,
    pub window_sec: Option<String>,
    pub exchange: Option<String>,
    pub net_direction: Option<String>,
    pub status: Option<String>,
    pub range: Option<String>,
    pub cursor: Option<String>,
    pub from: Option<String>,
    pub to: Option<String>,
    pub offset: Option<String>,
    pub include_hidden: Option<String>,
    pub hide_stale: Option<String>,
}

/// Severity of a contract-whale signal.
#[derive(PartialEq, Eq, Structural, Clone, Copy, Debug)]
pub enum ContractWhaleSeverity {
    S,
    Critical,
    High,
    Medium,
    Calm,
}

/// Kind of a contract-whale signal.
#[derive(PartialEq, Eq, Structural, Clone, Copy, Debug)]
pub enum ContractWhaleSignalType {
    AggressiveBuy,
    AggressiveSell,
    DownsideAbsorption,
    UpsideSuppression,
}

/// Direction of a contract-whale signal.
#[derive(PartialEq, Eq, Structural, Clone, Copy, Debug)]
pub enum ContractWhaleDirection {
    Buy,
    Sell,
    Absorption,
    Suppression,
}

/// Where a history page starts: a plain offset, or after a known signal.
#[derive(PartialEq, Eq, Debug)]
pub enum ContractHistoryCursor {
    Offset(usize),
    Positioned { ts: i64, signal_id: String },
}

/// The offset of a plain-offset cursor.
pub fn cursor_offset(cursor: &ContractHistoryCursor) -> (r: Option<usize>)
    ensures
        r == match cursor {
            ContractHistoryCursor::Offset(n) => Some(*n),
            ContractHistoryCursor::Positioned { .. } => None::<usize>,
        },
{
    match cursor {
        ContractHistoryCursor::Offset(offset) => Some(*offset),
        ContractHistoryCursor::Positioned { .. } => None,
    }
}

/// The repository query of the history route.
pub struct ContractWhaleSignalQuery {
    pub symbol: Option<String>,
    pub severity: Option<ContractWhaleSeverity>,
    pub signal_type: Option<ContractWhaleSignalType>,
    pub direction: Option<ContractWhaleDirection>,
    pub discord_sent: Option<bool>,
    pub window_sec: Option<u64>,
    pub exchange: Option<String>,
    /// Smallest absolute net volume, in whole BTC.
    pub min_abs_net_volume_btc: Option<u32>,
    pub from_ts: Option<i64>,
    pub to_ts: Option<i64>,
    pub cursor_ts: Option<i64>,
    pub cursor_signal_id: Option<String>,
    pub limit: usize,
    pub offset: usize,
}

// ---------------------------------------------------------------------------
// Shared pieces
// ---------------------------------------------------------------------------

pub open spec fn opt_string_view(o: Option<String>) -> Option<Seq<char>> {
    match o {
        Some(s) => Some(s@),
        None => None,
    }
}

/// A rejection with this reason and no message.
pub open spec fn rejected_for(e: RequestRejection, reason: Seq<char>) -> bool {
    e.reason@ == reason && e.message is None
}

/// The rejection of a bad parameter.
pub fn bad_request(reason: &str) -> (r: RequestRejection)
    ensures
        rejected_for(r, reason@),
{
    RequestRejection { reason: String::from_str(reason), message: None }
}

fn invalid_field(field: &str) -> (r: RequestRejection)
    ensures
        rejected_for(r, field@ + "_invalid"@),
{
    let mut v = chars_of(field);
    push_str(&mut v, "_invalid");
    RequestRejection { reason: string_of(&v), message: None }
}

pub open spec fn separators() -> Seq<char> {
    seq!['-', ' ', '/']
}

/// Trimmed, lower-cased, with `-`, space and `/` turned into `_`.
pub open spec fn token(v: Seq<char>) -> Seq<char> {
    replace_any(lower(trim(v)), separators(), '_')
}

pub fn normalize_token(value: &Vec<char>) -> (r: Vec<char>)
    ensures
        r@ == token(value@),
{
    let l = lower_chars(&trim_chars(value));
    let mut from: Vec<char> = Vec::new();
    from.push('-');
    from.push(' ');
    from.push('/');
    proof {
        assert(from@ =~= separators());
    }
    replace_any_exec(&l, &from, '_')
}

pub open spec fn in_words(v: Seq<char>, words: Seq<Seq<char>>) -> bool {
    exists|i: int| 0 <= i < words.len() && words[i] == v
}

// ---------------------------------------------------------------------------
// Filters
// ---------------------------------------------------------------------------

pub open spec fn symbol_char_ok(c: char) -> bool {
    is_ascii_alnum(c) || c == '-' || c == '_' || c == '.' || c == ':' || c == '/'
}

/// A symbol filter: absent or blank means none; otherwise letters, digits
/// and `-_.:/` only, upper-cased.
pub open spec fn symbol_filter(v: Option<Seq<char>>) -> Result<Option<Seq<char>>, Seq<char>> {
    match present(v) {
        None => Ok(None),
        Some(s) => if forall|i: int| 0 <= i < s.len() ==> symbol_char_ok(#[trigger] s[i]) {
            Ok(Some(upper(s)))
        } else {
            Err("symbol_invalid"@)
        },
    }
}

pub fn parse_symbol_filter(symbol: Option<&str>) -> (r: Result<Option<String>, RequestRejection>)
    ensures
        match r {
            Ok(s) => symbol_filter(opt_view(symbol)) == Ok::<Option<Seq<char>>, Seq<char>>(
                opt_string_view(s),
            ),
            Err(e) => symbol_filter(opt_view(symbol)) is Err && rejected_for(
                e,
                symbol_filter(opt_view(symbol))->Err_0,
            ),
        },
{
    match present_exec(symbol) {
        None => Ok(None),
        Some(s) => {
            let mut i: usize = 0;
            while i < s.len()
                invariant
                    i <= s@.len(),
                    present(opt_view(symbol)) == Some(s@),
                    forall|j: int| 0 <= j < i ==> symbol_char_ok(#[trigger] s@[j]),
                decreases s.len() - i,
            {
                let c = s[i];
                let ok = ('A' <= c && c <= 'Z') || ('a' <= c && c <= 'z') || ('0' <= c && c
                    <= '9') || c == '-' || c == '_' || c == '.' || c == ':' || c == '/';
                if !ok {
                    proof {
                        assert(!symbol_char_ok(s@[i as int]));
                        assert(!(forall|j: int| 0 <= j < s@.len() ==> symbol_char_ok(#[trigger] s@[j])));
                        assert(present(opt_view(symbol)) == Some(s@));
                        assert(symbol_filter(opt_view(symbol)) == Err::<Option<Seq<char>>, Seq<char>>(
                            "symbol_invalid"@,
                        ));
                    }
                    return Err(bad_request("symbol_invalid"));
                }
                i = i + 1;
            }
            Ok(Some(string_of(&upper_chars(&s))))
        },
    }
}

/// The symbol of the latest route: the filter, or BTC.
pub fn parse_symbol_for_latest(symbol: Option<&str>) -> (r: Result<String, RequestRejection>)
    ensures
        match r {
            Ok(s) => symbol_filter(opt_view(symbol)) matches Ok(f) && s@ == match f {
                Some(v) => v,
                None => "BTC"@,
            },
            Err(e) => symbol_filter(opt_view(symbol)) is Err && rejected_for(
                e,
                symbol_filter(opt_view(symbol))->Err_0,
            ),
        },
{
    match parse_symbol_filter(symbol) {
        Ok(Some(s)) => Ok(s),
        Ok(None) => Ok(String::from_str("BTC")),
        Err(e) => Err(e),
    }
}

pub open spec fn severity_filter(v: Option<Seq<char>>) -> Result<
    Option<ContractWhaleSeverity>,
    Seq<char>,
> {
    match present(v) {
        None => Ok(None),
        Some(s) => {
            let l = lower(s);
            if l == "s"@ {
                Ok(Some(ContractWhaleSeverity::S))
            } else if l == "critical"@ {
                Ok(Some(ContractWhaleSeverity::Critical))
            } else if l == "high"@ {
                Ok(Some(ContractWhaleSeverity::High))
            } else if l == "medium"@ {
                Ok(Some(ContractWhaleSeverity::Medium))
            } else if l == "calm"@ {
                Ok(Some(ContractWhaleSeverity::Calm))
            } else {
                Err("severity_invalid"@)
            }
        },
    }
}

/// Each severity word reads as the level it names: a present filter is
/// accepted exactly when its lower-cased text is the word of some level,
/// and then gives that level; so distinct words give distinct levels.
pub proof fn law_severity_filter_names_its_level(v: Option<Seq<char>>, level: ContractWhaleSeverity)
    ensures
        severity_filter(v) matches Ok(Some(s)) ==> present(v) is Some && lower(present(v)->Some_0)
            == crate::events::severity_word(s),
        present(v) is Some && lower(present(v)->Some_0) == crate::events::severity_word(level)
            ==> severity_filter(v) == Ok::<Option<ContractWhaleSeverity>, Seq<char>>(Some(level)),
        present(v) is None ==> severity_filter(v) == Ok::<Option<ContractWhaleSeverity>, Seq<char>>(
            None,
        ),
{
    reveal_strlit("s");
    reveal_strlit("critical");
    reveal_strlit("high");
    reveal_strlit("medium");
    reveal_strlit("calm");
    assert("s"@.len() != "critical"@.len() && "s"@.len() != "high"@.len() && "s"@.len()
        != "medium"@.len() && "s"@.len() != "calm"@.len());
    assert("critical"@.len() != "high"@.len() && "critical"@.len() != "medium"@.len()
        && "critical"@.len() != "calm"@.len());
    assert("high"@[0] != "calm"@[0] && "high"@.len() != "medium"@.len());
    assert("medium"@.len() != "calm"@.len());
}

pub fn parse_severity_filter(filter: Option<&str>) -> (r: Result<
    Option<ContractWhaleSeverity>,
    RequestRejection,
>)
    ensures
        match r {
            Ok(s) => severity_filter(opt_view(filter)) == Ok::<
                Option<ContractWhaleSeverity>,
                Seq<char>,
            >(s),
            Err(e) => severity_filter(opt_view(filter)) is Err && rejected_for(
                e,
                severity_filter(opt_view(filter))->Err_0,
            ),
        },
{
    match present_exec(filter) {
        None => Ok(None),
        Some(s) => {
            let l = lower_chars(&s);
            if eq_str(&l, "s") {
                Ok(Some(ContractWhaleSeverity::S))
            } else if eq_str(&l, "critical") {
                Ok(Some(ContractWhaleSeverity::Critical))
            } else if eq_str(&l, "high") {
                Ok(Some(ContractWhaleSeverity::High))
            } else if eq_str(&l, "medium") {
                Ok(Some(ContractWhaleSeverity::Medium))
            } else if eq_str(&l, "calm") {
                Ok(Some(ContractWhaleSeverity::Calm))
            } else {
                Err(bad_request("severity_invalid"))
            }
        },
    }
}

/// Whether a severity passes a raw severity filter: no filter, or an
/// unknown word, passes everything.
pub open spec fn severity_passes(severity: ContractWhaleSeverity, filter: Option<Seq<char>>) -> bool {
    match filter {
        None => true,
        Some(f) => {
            let l = lower(f);
            if l == "s"@ {
                severity == ContractWhaleSeverity::S
            } else if l == "critical"@ {
                severity == ContractWhaleSeverity::Critical
            } else if l == "high"@ {
                severity == ContractWhaleSeverity::High
            } else if l == "medium"@ {
                severity == ContractWhaleSeverity::Medium
            } else {
                true
            }
        },
    }
}

pub fn severity_matches(severity: ContractWhaleSeverity, filter: Option<&str>) -> (r: bool)
    ensures
        r == severity_passes(severity, opt_view(filter)),
{
    match filter {
        None => true,
        Some(f) => {
            let l = lower_chars(&chars_of(f));
            if eq_str(&l, "s") {
                severity == ContractWhaleSeverity::S
            } else if eq_str(&l, "critical") {
                severity == ContractWhaleSeverity::Critical
            } else if eq_str(&l, "high") {
                severity == ContractWhaleSeverity::High
            } else if eq_str(&l, "medium") {
                severity == ContractWhaleSeverity::Medium
            } else {
                true
            }
        },
    }
}

pub open spec fn status_word(severity: ContractWhaleSeverity) -> Seq<char> {
    match severity {
        ContractWhaleSeverity::S | ContractWhaleSeverity::Critical => "strong"@,
        ContractWhaleSeverity::High | ContractWhaleSeverity::Medium => "active"@,
        ContractWhaleSeverity::Calm => "calm"@,
    }
}

/// The status word shown for a severity.
pub fn status_code(severity: ContractWhaleSeverity) -> (r: &'static str)
    ensures
        r@ == status_word(severity),
{
    match severity {
        ContractWhaleSeverity::S | ContractWhaleSeverity::Critical => "strong",
        ContractWhaleSeverity::High | ContractWhaleSeverity::Medium => "active",
        ContractWhaleSeverity::Calm => "calm",
    }
}

pub open spec fn direction_word(direction: ContractWhaleDirection) -> Seq<char> {
    match direction {
        ContractWhaleDirection::Buy => "buy"@,
        ContractWhaleDirection::Sell => "sell"@,
        ContractWhaleDirection::Absorption => "absorption"@,
        ContractWhaleDirection::Suppression => "suppression"@,
    }
}

/// The key of a direction.
pub fn direction_key(direction: ContractWhaleDirection) -> (r: &'static str)
    ensures
        r@ == direction_word(direction),
{
    match direction {
        ContractWhaleDirection::Buy => "buy",
        ContractWhaleDirection::Sell => "sell",
        ContractWhaleDirection::Absorption => "absorption",
        ContractWhaleDirection::Suppression => "suppression",
    }
}

pub open spec fn signal_type_filter(v: Option<Seq<char>>) -> Result<
    Option<ContractWhaleSignalType>,
    Seq<char>,
> {
    match present(v) {
        None => Ok(None),
        Some(s) => {
            let t = token(s);
            if t == "aggressivebuy"@ || t == "aggressive_buy"@ {
                Ok(Some(ContractWhaleSignalType::AggressiveBuy))
            } else if t == "aggressivesell"@ || t == "aggressive_sell"@ {
                Ok(Some(ContractWhaleSignalType::AggressiveSell))
            } else if t == "downsideabsorption"@ || t == "downside_absorption"@ {
                Ok(Some(ContractWhaleSignalType::DownsideAbsorption))
            } else if t == "upsidesuppression"@ || t == "upside_suppression"@ {
                Ok(Some(ContractWhaleSignalType::UpsideSuppression))
            } else {
                Err("signal_type_invalid"@)
            }
        },
    }
}

pub fn parse_signal_type_filter(filter: Option<&str>) -> (r: Result<
    Option<ContractWhaleSignalType>,
    RequestRejection,
>)
    ensures
        match r {
            Ok(s) => signal_type_filter(opt_view(filter)) == Ok::<
                Option<ContractWhaleSignalType>,
                Seq<char>,
            >(s),
            Err(e) => signal_type_filter(opt_view(filter)) is Err && rejected_for(
                e,
                signal_type_filter(opt_view(filter))->Err_0,
            ),
        },
{
    match present_exec(filter) {
        None => Ok(None),
        Some(s) => {
            let t = normalize_token(&s);
            if eq_str(&t, "aggressivebuy") || eq_str(&t, "aggressive_buy") {
                Ok(Some(ContractWhaleSignalType::AggressiveBuy))
            } else if eq_str(&t, "aggressivesell") || eq_str(&t, "aggressive_sell") {
                Ok(Some(ContractWhaleSignalType::AggressiveSell))
            } else if eq_str(&t, "downsideabsorption") || eq_str(&t, "downside_absorption") {
                Ok(Some(ContractWhaleSignalType::DownsideAbsorption))
            } else if eq_str(&t, "upsidesuppression") || eq_str(&t, "upside_suppression") {
                Ok(Some(ContractWhaleSignalType::UpsideSuppression))
            } else {
                Err(bad_request("signal_type_invalid"))
            }
        },
    }
}

pub open spec fn buy_words() -> Seq<Seq<char>> {
    seq![
        "buy"@,
        "long"@,
        "activebuy"@,
        "active_buy"@,
        "aggressivebuy"@,
        "aggressive_buy"@,
        "主动买入"@,
    ]
}

pub open spec fn sell_words() -> Seq<Seq<char>> {
    seq![
        "sell"@,
        "short"@,
        "activesell"@,
        "active_sell"@,
        "aggressivesell"@,
        "aggressive_sell"@,
        "主动卖出"@,
    ]
}

pub open spec fn direction_filter(v: Option<Seq<char>>) -> Result<
    Option<ContractWhaleDirection>,
    Seq<char>,
> {
    match present(v) {
        None => Ok(None),
        Some(s) => {
            let t = token(s);
            if in_words(t, buy_words()) {
                Ok(Some(ContractWhaleDirection::Buy))
            } else if in_words(t, sell_words()) {
                Ok(Some(ContractWhaleDirection::Sell))
            } else if t == "absorption"@ || t == "downsideabsorption"@ || t
                == "downside_absorption"@ {
                Ok(Some(ContractWhaleDirection::Absorption))
            } else if t == "suppression"@ || t == "upsidesuppression"@ || t
                == "upside_suppression"@ {
                Ok(Some(ContractWhaleDirection::Suppression))
            } else {
                Err("direction_invalid"@)
            }
        },
    }
}

/// The key of each direction reads as that direction.
pub proof fn law_direction_filter_reads_keys(v: Option<Seq<char>>, d: ContractWhaleDirection)
    ensures
        present(v) is Some && token(present(v)->Some_0) == direction_word(d) ==> direction_filter(v)
            == Ok::<Option<ContractWhaleDirection>, Seq<char>>(Some(d)),
{
    reveal_strlit("buy");
    reveal_strlit("long");
    reveal_strlit("activebuy");
    reveal_strlit("active_buy");
    reveal_strlit("aggressivebuy");
    reveal_strlit("aggressive_buy");
    reveal_strlit("主动买入");
    reveal_strlit("sell");
    reveal_strlit("short");
    reveal_strlit("activesell");
    reveal_strlit("active_sell");
    reveal_strlit("aggressivesell");
    reveal_strlit("aggressive_sell");
    reveal_strlit("主动卖出");
    reveal_strlit("absorption");
    reveal_strlit("suppression");
    reveal_strlit("downsideabsorption");
    reveal_strlit("downside_absorption");
    if present(v) is Some {
        let t = token(present(v)->Some_0);
        if t == direction_word(d) {
            match d {
                ContractWhaleDirection::Buy => {
                    assert(buy_words()[0] == t);
                },
                ContractWhaleDirection::Sell => {
                    assert(sell_words()[0] == t);
                    assert forall|i: int| 0 <= i < buy_words().len() implies buy_words()[i] != t by {
                        assert(buy_words()[i][0] != t[0] || buy_words()[i].len() != t.len());
                    }
                    assert(!in_words(t, buy_words()));
                },
                ContractWhaleDirection::Absorption => {
                    assert forall|i: int| 0 <= i < buy_words().len() implies buy_words()[i] != t by {
                        assert(buy_words()[i].len() != t.len() || buy_words()[i][1] != t[1]);
                    }
                    assert forall|i: int| 0 <= i < sell_words().len() implies sell_words()[i] != t by {
                        assert(sell_words()[i].len() != t.len() || sell_words()[i][1] != t[1]);
                    }
                    assert(!in_words(t, buy_words()));
                    assert(!in_words(t, sell_words()));
                },
                ContractWhaleDirection::Suppression => {
                    assert forall|i: int| 0 <= i < buy_words().len() implies buy_words()[i] != t by {
                        assert(buy_words()[i].len() != t.len() || buy_words()[i][0] != t[0]);
                    }
                    assert forall|i: int| 0 <= i < sell_words().len() implies sell_words()[i] != t by {
                        assert(sell_words()[i].len() != t.len() || sell_words()[i][0] != t[0]);
                    }
                    assert(!in_words(t, buy_words()));
                    assert(!in_words(t, sell_words()));
                },
            }
        }
    }
}

/// The word of each kind of signal reads as that kind.
pub proof fn law_signal_type_filter_reads_keys(v: Option<Seq<char>>, k: ContractWhaleSignalType)
    ensures
        present(v) is Some && token(present(v)->Some_0) == crate::metrics::signal_kind_name(k)
            ==> signal_type_filter(v) == Ok::<Option<ContractWhaleSignalType>, Seq<char>>(Some(k)),
{
    reveal_strlit("aggressivebuy");
    reveal_strlit("aggressive_buy");
    reveal_strlit("aggressivesell");
    reveal_strlit("aggressive_sell");
    reveal_strlit("downsideabsorption");
    reveal_strlit("downside_absorption");
    reveal_strlit("upsidesuppression");
    reveal_strlit("upside_suppression");
    assert("aggressivebuy"@.len() != "aggressive_buy"@.len());
    assert("aggressivesell"@.len() != "aggressivebuy"@.len() && "aggressivesell"@[10]
        != "aggressive_buy"@[10] && "aggressivesell"@.len() != "aggressive_sell"@.len());
    assert("downsideabsorption"@[0] != "aggressivebuy"@[0] && "downsideabsorption"@[0]
        != "aggressive_buy"@[0] && "downsideabsorption"@[0] != "aggressivesell"@[0]
        && "downsideabsorption"@[0] != "aggressive_sell"@[0] && "downsideabsorption"@.len()
        != "downside_absorption"@.len());
    assert("upsidesuppression"@[0] != "aggressivebuy"@[0] && "upsidesuppression"@[0]
        != "aggressive_buy"@[0] && "upsidesuppression"@[0] != "aggressivesell"@[0]
        && "upsidesuppression"@[0] != "aggressive_sell"@[0] && "upsidesuppression"@[0]
        != "downsideabsorption"@[0] && "upsidesuppression"@[0] != "downside_absorption"@[0]);
}

fn is_buy_word(t: &Vec<char>) -> (r: bool)
    ensures
        r == in_words(t@, buy_words()),
{
    let r = eq_str(t, "buy") || eq_str(t, "long") || eq_str(t, "activebuy") || eq_str(
        t,
        "active_buy",
    ) || eq_str(t, "aggressivebuy") || eq_str(t, "aggressive_buy") || eq_str(t, "主动买入");
    proof {
        if r {
            if t@ == "buy"@ {
                assert(buy_words()[0] == t@);
            } else if t@ == "long"@ {
                assert(buy_words()[1] == t@);
            } else if t@ == "activebuy"@ {
                assert(buy_words()[2] == t@);
            } else if t@ == "active_buy"@ {
                assert(buy_words()[3] == t@);
            } else if t@ == "aggressivebuy"@ {
                assert(buy_words()[4] == t@);
            } else if t@ == "aggressive_buy"@ {
                assert(buy_words()[5] == t@);
            } else {
                assert(buy_words()[6] == t@);
            }
        }
    }
    r
}

fn is_sell_word(t: &Vec<char>) -> (r: bool)
    ensures
        r == in_words(t@, sell_words()),
{
    let r = eq_str(t, "sell") || eq_str(t, "short") || eq_str(t, "activesell") || eq_str(
        t,
        "active_sell",
    ) || eq_str(t, "aggressivesell") || eq_str(t, "aggressive_sell") || eq_str(t, "主动卖出");
    proof {
        if r {
            if t@ == "sell"@ {
                assert(sell_words()[0] == t@);
            } else if t@ == "short"@ {
                assert(sell_words()[1] == t@);
            } else if t@ == "activesell"@ {
                assert(sell_words()[2] == t@);
            } else if t@ == "active_sell"@ {
                assert(sell_words()[3] == t@);
            } else if t@ == "aggressivesell"@ {
                assert(sell_words()[4] == t@);
            } else if t@ == "aggressive_sell"@ {
                assert(sell_words()[5] == t@);
            } else {
                assert(sell_words()[6] == t@);
            }
        }
    }
    r
}

pub fn parse_direction_filter(filter: Option<&str>) -> (r: Result<
    Option<ContractWhaleDirection>,
    RequestRejection,
>)
    ensures
        match r {
            Ok(s) => direction_filter(opt_view(filter)) == Ok::<
                Option<ContractWhaleDirection>,
                Seq<char>,
            >(s),
            Err(e) => direction_filter(opt_view(filter)) is Err && rejected_for(
                e,
                direction_filter(opt_view(filter))->Err_0,
            ),
        },
{
    match present_exec(filter) {
        None => Ok(None),
        Some(s) => {
            let t = normalize_token(&s);
            if is_buy_word(&t) {
                Ok(Some(ContractWhaleDirection::Buy))
            } else if is_sell_word(&t) {
                Ok(Some(ContractWhaleDirection::Sell))
            } else if eq_str(&t, "absorption") || eq_str(&t, "downsideabsorption") || eq_str(
                &t,
                "downside_absorption",
            ) {
                Ok(Some(ContractWhaleDirection::Absorption))
            } else if eq_str(&t, "suppression") || eq_str(&t, "upsidesuppression") || eq_str(
                &t,
                "upside_suppression",
            ) {
                Ok(Some(ContractWhaleDirection::Suppression))
            } else {
                Err(bad_request("direction_invalid"))
            }
        },
    }
}

pub open spec fn exchange_filter(v: Option<Seq<char>>) -> Result<Option<Seq<char>>, Seq<char>> {
    match present(v) {
        None => Ok(None),
        Some(s) => {
            let l = lower(s);
            if l == "binance"@ || l == "okx"@ || l == "bitfinex"@ || l == "coinbase"@ {
                Ok(Some(l))
            } else {
                Err("exchange_invalid"@)
            }
        },
    }
}

pub fn parse_exchange_filter(filter: Option<&str>) -> (r: Result<Option<String>, RequestRejection>)
    ensures
        match r {
            Ok(s) => exchange_filter(opt_view(filter)) == Ok::<Option<Seq<char>>, Seq<char>>(
                opt_string_view(s),
            ),
            Err(e) => exchange_filter(opt_view(filter)) is Err && rejected_for(
                e,
                exchange_filter(opt_view(filter))->Err_0,
            ),
        },
{
    match present_exec(filter) {
        None => Ok(None),
        Some(s) => {
            let l = lower_chars(&s);
            if eq_str(&l, "binance") || eq_str(&l, "okx") || eq_str(&l, "bitfinex") || eq_str(
                &l,
                "coinbase",
            ) {
                Ok(Some(string_of(&l)))
            } else {
                Err(bad_request("exchange_invalid"))
            }
        },
    }
}

pub open spec fn window_sec_filter(v: Option<Seq<char>>) -> Result<Option<u64>, Seq<char>> {
    match present(v) {
        None => Ok(None),
        Some(s) => match parse_unsigned(s, u64::MAX as int) {
            Some(n) => if n == 5 || n == 15 || n == 60 {
                Ok(Some(n as u64))
            } else {
                Err("window_sec_invalid"@)
            },
            None => Err("window_sec_invalid"@),
        },
    }
}

pub fn parse_window_sec_filter(filter: Option<&str>) -> (r: Result<Option<u64>, RequestRejection>)
    ensures
        match r {
            Ok(s) => window_sec_filter(opt_view(filter)) == Ok::<Option<u64>, Seq<char>>(s),
            Err(e) => window_sec_filter(opt_view(filter)) is Err && rejected_for(
                e,
                window_sec_filter(opt_view(filter))->Err_0,
            ),
        },
{
    match present_exec(filter) {
        None => Ok(None),
        Some(s) => match parse_u64(&s) {
            Some(n) => if n == 5 || n == 15 || n == 60 {
                Ok(Some(n))
            } else {
                Err(bad_request("window_sec_invalid"))
            },
            None => Err(bad_request("window_sec_invalid")),
        },
    }
}

/// The net-volume filter: "all" (any case) or absent means none; the
/// 500 and 1000 BTC thresholds under several spellings.
pub open spec fn net_direction_filter(v: Option<Seq<char>>) -> Result<Option<u32>, Seq<char>> {
    match present(v) {
        None => Ok(None),
        Some(s) => if lower(s) == "all"@ {
            Ok(None)
        } else {
            let t = token(s);
            if t == "abs500"@ || t == "gte500"@ || t == "min500"@ || t == "500"@ {
                Ok(Some(500))
            } else if t == "abs1000"@ || t == "gte1000"@ || t == "min1000"@ || t == "1000"@ {
                Ok(Some(1000))
            } else {
                Err("net_direction_invalid"@)
            }
        },
    }
}

pub fn parse_net_direction_filter(filter: Option<&str>) -> (r: Result<
    Option<u32>,
    RequestRejection,
>)
    ensures
        match r {
            Ok(s) => net_direction_filter(opt_view(filter)) == Ok::<Option<u32>, Seq<char>>(s),
            Err(e) => net_direction_filter(opt_view(filter)) is Err && rejected_for(
                e,
                net_direction_filter(opt_view(filter))->Err_0,
            ),
        },
{
    proof {
        reveal_strlit("all");
        assert(lower("all"@) =~= "all"@);
    }
    match present_exec(filter) {
        None => Ok(None),
        Some(s) => {
            if eq_ignore_case_str(&s, "all") {
                return Ok(None);
            }
            let t = normalize_token(&s);
            if eq_str(&t, "abs500") || eq_str(&t, "gte500") || eq_str(&t, "min500") || eq_str(
                &t,
                "500",
            ) {
                Ok(Some(500))
            } else if eq_str(&t, "abs1000") || eq_str(&t, "gte1000") || eq_str(&t, "min1000")
                || eq_str(&t, "1000") {
                Ok(Some(1000))
            } else {
                Err(bad_request("net_direction_invalid"))
            }
        },
    }
}

// ---------------------------------------------------------------------------
// Paging and bounds
// ---------------------------------------------------------------------------

pub open spec fn limit_param(v: Option<Seq<char>>, default: int, max: int) -> Result<int, Seq<char>> {
    match present(v) {
        None => Ok(default),
        Some(s) => match parse_unsigned(s, usize::MAX as int) {
            Some(n) => Ok(clamp_spec(n, 1, max)),
            None => Err("limit_invalid"@),
        },
    }
}

/// An absent or blank limit is the default; a number is kept within 1 and
/// the maximum (0 reads as 1, anything above the maximum as the maximum);
/// any other text is refused.
pub proof fn law_limit_within_bounds(v: Option<Seq<char>>, default: int, max: int, n: int)
    requires
        1 <= max,
    ensures
        present(v) is None ==> limit_param(v, default, max) == Ok::<int, Seq<char>>(default),
        present(v) is Some && parse_unsigned(present(v)->Some_0, usize::MAX as int) == Some(n)
            ==> limit_param(v, default, max) == Ok::<int, Seq<char>>(
            if n < 1 {
                1
            } else if n > max {
                max
            } else {
                n
            },
        ),
        present(v) is Some && limit_param(v, default, max) is Ok ==> 1 <= limit_param(
            v,
            default,
            max,
        )->Ok_0 <= max,
        present(v) is Some && parse_unsigned(present(v)->Some_0, usize::MAX as int) is None
            ==> limit_param(v, default, max) is Err,
{
}

pub fn parse_limit(value: Option<&str>, default: usize, max: usize) -> (r: Result<
    usize,
    RequestRejection,
>)
    requires
        1 <= max,
    ensures
        match r {
            Ok(n) => limit_param(opt_view(value), default as int, max as int) == Ok::<
                int,
                Seq<char>,
            >(n as int),
            Err(e) => limit_param(opt_view(value), default as int, max as int) is Err
                && rejected_for(e, limit_param(opt_view(value), default as int, max as int)->Err_0),
        },
{
    match present_exec(value) {
        None => Ok(default),
        Some(s) => match parse_usize(&s) {
            Some(n) => Ok(clamp_usize(n, 1, max)),
            None => Err(bad_request("limit_invalid")),
        },
    }
}

pub open spec fn offset_param(v: Option<Seq<char>>) -> Result<int, Seq<char>> {
    match present(v) {
        None => Ok(0),
        Some(s) => match parse_unsigned(s, usize::MAX as int) {
            Some(n) => Ok(n),
            None => Err("offset_invalid"@),
        },
    }
}

pub fn parse_offset(value: Option<&str>) -> (r: Result<usize, RequestRejection>)
    ensures
        match r {
            Ok(n) => offset_param(opt_view(value)) == Ok::<int, Seq<char>>(n as int),
            Err(e) => offset_param(opt_view(value)) is Err && rejected_for(
                e,
                offset_param(opt_view(value))->Err_0,
            ),
        },
{
    match present_exec(value) {
        None => Ok(0),
        Some(s) => match parse_usize(&s) {
            Some(n) => Ok(n),
            None => Err(bad_request("offset_invalid")),
        },
    }
}

pub open spec fn optional_bool_param(v: Option<Seq<char>>, field: Seq<char>) -> Result<
    Option<bool>,
    Seq<char>,
> {
    match present(v) {
        None => Ok(None),
        Some(s) => match bool_word(s) {
            Some(b) => Ok(Some(b)),
            None => Err(field + "_invalid"@),
        },
    }
}

pub fn parse_optional_bool(value: Option<&str>, field: &str) -> (r: Result<
    Option<bool>,
    RequestRejection,
>)
    ensures
        match r {
            Ok(b) => optional_bool_param(opt_view(value), field@) == Ok::<Option<bool>, Seq<char>>(
                b,
            ),
            Err(e) => optional_bool_param(opt_view(value), field@) is Err && rejected_for(
                e,
                optional_bool_param(opt_view(value), field@)->Err_0,
            ),
        },
{
    match present_exec(value) {
        None => Ok(None),
        Some(s) => match bool_word_exec(&s) {
            Some(b) => Ok(Some(b)),
            None => Err(invalid_field(field)),
        },
    }
}

pub open spec fn optional_i64_param(v: Option<Seq<char>>, field: Seq<char>) -> Result<
    Option<int>,
    Seq<char>,
> {
    match present(v) {
        None => Ok(None),
        Some(s) => match parse_i64_spec(s) {
            Some(n) => Ok(Some(n)),
            None => Err(field + "_invalid"@),
        },
    }
}

pub open spec fn opt_i64_view(o: Option<i64>) -> Option<int> {
    match o {
        Some(v) => Some(v as int),
        None => None,
    }
}

pub fn parse_optional_i64(value: Option<&str>, field: &str) -> (r: Result<
    Option<i64>,
    RequestRejection,
>)
    ensures
        match r {
            Ok(n) => optional_i64_param(opt_view(value), field@) == Ok::<Option<int>, Seq<char>>(
                opt_i64_view(n),
            ),
            Err(e) => optional_i64_param(opt_view(value), field@) is Err && rejected_for(
                e,
                optional_i64_param(opt_view(value), field@)->Err_0,
            ),
        },
{
    match present_exec(value) {
        None => Ok(None),
        Some(s) => match parse_i64(&s) {
            Some(n) => Ok(Some(n)),
            None => Err(invalid_field(field)),
        },
    }
}

/// `a - b`, clamped to the `i64` range.
pub open spec fn sat_sub_i64(a: int, b: int) -> int {
    if a - b < i64::MIN {
        i64::MIN as int
    } else if a - b > i64::MAX {
        i64::MAX as int
    } else {
        a - b
    }
}

/// The start of a named look-back range ending at `now`: "all" (any case)
/// or absent means none; 15m, 1h, 4h, 24h and 7d (any case).
pub open spec fn range_start(v: Option<Seq<char>>, now: int) -> Result<Option<int>, Seq<char>> {
    match present(v) {
        None => Ok(None),
        Some(s) => {
            let l = lower(s);
            if l == "all"@ {
                Ok(None)
            } else if l == "15m"@ {
                Ok(Some(sat_sub_i64(now, 900_000)))
            } else if l == "1h"@ {
                Ok(Some(sat_sub_i64(now, 3_600_000)))
            } else if l == "4h"@ {
                Ok(Some(sat_sub_i64(now, 14_400_000)))
            } else if l == "24h"@ {
                Ok(Some(sat_sub_i64(now, 86_400_000)))
            } else if l == "7d"@ {
                Ok(Some(sat_sub_i64(now, 604_800_000)))
            } else {
                Err("range_invalid"@)
            }
        },
    }
}

pub fn parse_range_start_ms_at(value: Option<&str>, now: i64) -> (r: Result<
    Option<i64>,
    RequestRejection,
>)
    ensures
        match r {
            Ok(n) => range_start(opt_view(value), now as int) == Ok::<Option<int>, Seq<char>>(
                opt_i64_view(n),
            ),
            Err(e) => range_start(opt_view(value), now as int) is Err && rejected_for(
                e,
                range_start(opt_view(value), now as int)->Err_0,
            ),
        },
{
    match present_exec(value) {
        None => Ok(None),
        Some(s) => {
            let l = lower_chars(&s);
            let delta: i64 = if eq_str(&l, "all") {
                return Ok(None);
            } else if eq_str(&l, "15m") {
                900_000
            } else if eq_str(&l, "1h") {
                3_600_000
            } else if eq_str(&l, "4h") {
                14_400_000
            } else if eq_str(&l, "24h") {
                86_400_000
            } else if eq_str(&l, "7d") {
                604_800_000
            } else {
                return Err(bad_request("range_invalid"));
            };
            if now < i64::MIN + delta {
                Ok(Some(i64::MIN))
            } else {
                Ok(Some(now - delta))
            }
        },
    }
}

// ---------------------------------------------------------------------------
// The history cursor
// ---------------------------------------------------------------------------

/// The text of a positioned cursor: `ts|signal_id`.
pub open spec fn cursor_text(ts: int, signal_id: Seq<char>) -> Seq<char> {
    int_decimal(ts) + "|"@ + signal_id
}

/// The opaque cursor of a position: the base64 of its UTF-8 text.
pub open spec fn cursor_token(ts: int, signal_id: Seq<char>) -> Seq<char> {
    base64_standard_encoded(encode_utf8(cursor_text(ts, signal_id)))
}

/// The first `|` of `s` is at `i`.
pub open spec fn first_bar_at(s: Seq<char>, i: int) -> bool {
    0 <= i < s.len() && s[i] == '|' && forall|j: int| 0 <= j < i ==> s[j] != '|'
}

/// The position in a decoded cursor text `ts|signal_id`: the trimmed time
/// before the first `|`, the trimmed id after it, which must not be empty.
pub open spec fn position_of_text(s: Seq<char>) -> Option<(int, Seq<char>)> {
    if exists|i: int| first_bar_at(s, i) {
        let i = choose|i: int| first_bar_at(s, i);
        match parse_i64_spec(trim(s.subrange(0, i))) {
            Some(ts) => if trim(s.subrange(i + 1, s.len() as int)).len() > 0 {
                Some((ts, trim(s.subrange(i + 1, s.len() as int))))
            } else {
                None
            },
            None => None,
        }
    } else {
        None
    }
}

/// The position in decoded cursor bytes: they must be UTF-8 text of the
/// form [`position_of_text`] reads.
pub open spec fn position_of_bytes(decoded: Option<Seq<u8>>) -> Option<(int, Seq<char>)> {
    match decoded {
        Some(b) => if valid_utf8(b) {
            position_of_text(decode_utf8(b))
        } else {
            None
        },
        None => None,
    }
}

pub open spec fn cursor_view(c: ContractHistoryCursor) -> (Option<int>, Option<(int, Seq<char>)>) {
    match c {
        ContractHistoryCursor::Offset(n) => (Some(n as int), None),
        ContractHistoryCursor::Positioned { ts, signal_id } => (None, Some((ts as int, signal_id@))),
    }
}

/// A history cursor: absent or blank means none; a plain number is an
/// offset; anything else must be the base64 of `ts|signal_id`.
pub open spec fn cursor_param(v: Option<Seq<char>>) -> Result<
    Option<(Option<int>, Option<(int, Seq<char>)>)>,
    Seq<char>,
> {
    match present(v) {
        None => Ok(None),
        Some(s) => match parse_unsigned(s, usize::MAX as int) {
            Some(n) => Ok(Some((Some(n), None))),
            None => match position_of_bytes(base64_standard_decoded(s)) {
                Some(p) => Ok(Some((None, Some(p)))),
                None => Err("cursor_invalid"@),
            },
        },
    }
}

/// Reads the position out of decoded cursor bytes.
pub fn cursor_from_decoded(decoded: Option<Vec<u8>>) -> (r: Result<
    ContractHistoryCursor,
    RequestRejection,
>)
    ensures
        match r {
            Ok(c) => cursor_view(c) == (None::<int>, Some(
                position_of_bytes(opt_bytes_view(decoded))->Some_0,
            )) && position_of_bytes(opt_bytes_view(decoded)) is Some,
            Err(e) => position_of_bytes(opt_bytes_view(decoded)) is None && rejected_for(
                e,
                "cursor_invalid"@,
            ),
        },
{
    let bytes = match decoded {
        Some(b) => b,
        None => return Err(bad_request("cursor_invalid")),
    };
    let ghost raw = bytes@;
    let text = match crate::codec::string_from_utf8(bytes) {
        Some(t) => t,
        None => return Err(bad_request("cursor_invalid")),
    };
    let s = chars_of(text.as_str());
    let mut i: usize = 0;
    while i < s.len() && s[i] != '|'
        invariant
            i <= s@.len(),
            forall|j: int| 0 <= j < i ==> s@[j] != '|',
        decreases s.len() - i,
    {
        i = i + 1;
    }
    if i == s.len() {
        proof {
            assert(!exists|k: int| first_bar_at(s@, k));
        }
        return Err(bad_request("cursor_invalid"));
    }
    proof {
        assert(first_bar_at(s@, i as int));
        let k = choose|k: int| first_bar_at(s@, k);
        if k < i {
            assert(s@[k] != '|');
        } else if k > i {
            assert(s@[i as int] != '|');
        }
        assert(k == i);
    }
    let mut head: Vec<char> = Vec::new();
    let mut j: usize = 0;
    while j < i
        invariant
            j <= i < s@.len(),
            head@ == s@.subrange(0, j as int),
        decreases i - j,
    {
        head.push(s[j]);
        proof {
            assert(s@.subrange(0, j + 1) =~= s@.subrange(0, j as int).push(s@[j as int]));
        }
        j = j + 1;
    }
    let mut tail: Vec<char> = Vec::new();
    let mut k: usize = i + 1;
    while k < s.len()
        invariant
            i + 1 <= k <= s@.len(),
            tail@ == s@.subrange(i + 1, k as int),
        decreases s.len() - k,
    {
        tail.push(s[k]);
        proof {
            assert(s@.subrange(i + 1, k + 1) =~= s@.subrange(i + 1, k as int).push(s@[k as int]));
        }
        k = k + 1;
    }
    let ts = match parse_i64(&trim_chars(&head)) {
        Some(t) => t,
        None => return Err(bad_request("cursor_invalid")),
    };
    let id = trim_chars(&tail);
    if id.len() == 0 {
        return Err(bad_request("cursor_invalid"));
    }
    Ok(ContractHistoryCursor::Positioned { ts, signal_id: string_of(&id) })
}

pub open spec fn opt_bytes_view(o: Option<Vec<u8>>) -> Option<Seq<u8>> {
    match o {
        Some(b) => Some(b@),
        None => None,
    }
}

/// Reads the cursor parameter.
pub fn parse_cursor(value: Option<&str>) -> (r: Result<
    Option<ContractHistoryCursor>,
    RequestRejection,
>)
    ensures
        match r {
            Ok(Some(c)) => cursor_param(opt_view(value)) == Ok::<
                Option<(Option<int>, Option<(int, Seq<char>)>)>,
                Seq<char>,
            >(Some(cursor_view(c))),
            Ok(None) => cursor_param(opt_view(value)) == Ok::<
                Option<(Option<int>, Option<(int, Seq<char>)>)>,
                Seq<char>,
            >(None),
            Err(e) => cursor_param(opt_view(value)) is Err && rejected_for(
                e,
                cursor_param(opt_view(value))->Err_0,
            ),
        },
{
    let s = match present_exec(value) {
        None => return Ok(None),
        Some(s) => s,
    };
    if let Some(n) = parse_usize(&s) {
        return Ok(Some(ContractHistoryCursor::Offset(n)));
    }
    let text = string_of(&s);
    let decoded = base64_decode(text.as_str());
    match cursor_from_decoded(decoded) {
        Ok(c) => Ok(Some(c)),
        Err(e) => Err(e),
    }
}

/// The cursor token of a position.
pub fn encode_contract_history_cursor(ts: i64, signal_id: &str) -> (r: String)
    requires
        signal_id@.len() <= usize::MAX / 16,
    ensures
        r@ == cursor_token(ts as int, signal_id@),
        trim(signal_id@) == signal_id@ && signal_id@.len() > 0 ==> cursor_param(Some(r@)) == Ok::<
            Option<(Option<int>, Option<(int, Seq<char>)>)>,
            Seq<char>,
        >(Some((None, Some((ts as int, signal_id@))))),
{
    proof {
        reveal_strlit("|");
    }
    let mut v = i64_decimal(ts);
    let ghost digits = v@;
    push_str(&mut v, "|");
    push_str(&mut v, signal_id);
    let text = string_of(&v);
    proof {
        lemma_decimal_shape(ts as int);
        vstd::utf8::encode_utf8_valid_utf8(text@);
        vstd::utf8::encode_utf8_decode_utf8(text@);
    }
    let bytes = text.as_str().as_bytes();
    proof {
        lemma_encode_utf8_len(text@);
    }
    let r = base64_encode(bytes);
    proof {
        lemma_cursor_token_is_no_offset(ts as int, signal_id@);
        reveal_strlit("ABCDEFGHIJKLMNOPQRSTUVWXYZabcdefghijklmnopqrstuvwxyz0123456789+/");
        let b0 = bytes@[0];
        assert(r@[0] == crate::codec::base64_alphabet()[b0 as int / 4]);
        assert('L' <= r@[0] && r@[0] <= 'O');
        assert(crate::text::unsigned_body(r@) == r@);
        assert(!crate::text::is_ascii_digit(r@[0]));
        assert(parse_unsigned(r@, usize::MAX as int) is None);
        crate::text::lemma_trim_noop(r@);
        if trim(signal_id@) == signal_id@ && signal_id@.len() > 0 {
            lemma_position_of_cursor_text(ts as int, signal_id@);
        }
    }
    r
}

// ---------------------------------------------------------------------------
// The history query
// ---------------------------------------------------------------------------

pub open spec fn v(o: Option<String>) -> Option<Seq<char>> {
    opt_string_view(o)
}

/// The lower time bound: `from`, else the start of the named range.
pub open spec fn from_bound(q: ContractWhaleQuery, now: int) -> Result<Option<int>, Seq<char>> {
    match optional_i64_param(v(q.from), "from"@) {
        Err(e) => Err(e),
        Ok(Some(f)) => Ok(Some(f)),
        Ok(None) => range_start(v(q.range), now),
    }
}

pub open spec fn cursor_offset_of(c: Option<(Option<int>, Option<(int, Seq<char>)>)>) -> Option<int> {
    match c {
        Some((Some(n), _)) => Some(n),
        _ => None,
    }
}

pub open spec fn cursor_position_of(c: Option<(Option<int>, Option<(int, Seq<char>)>)>) -> Option<
    (int, Seq<char>),
> {
    match c {
        Some((None, Some(p))) => Some(p),
        _ => None,
    }
}

/// The first reason the history query is refused, checking in this order:
/// `from`, `to`, `range` (only without `from`), the bounds' order, the
/// cursor, the offset (only without an offset cursor), then the symbol,
/// severity, signal type, direction, `discord_sent`, window, exchange, net
/// direction and limit filters.
pub open spec fn history_error(q: ContractWhaleQuery, now: int) -> Option<Seq<char>> {
    history_error_lim(q, v(q.limit), now)
}

/// [`history_error`] with `limit` read in place of the query's own limit.
pub open spec fn history_error_lim(q: ContractWhaleQuery, limit: Option<Seq<char>>, now: int) -> Option<Seq<char>> {
    match optional_i64_param(v(q.from), "from"@) {
        Err(e) => Some(e),
        Ok(_) => match optional_i64_param(v(q.to), "to"@) {
            Err(e) => Some(e),
            Ok(to) => match from_bound(q, now) {
                Err(e) => Some(e),
                Ok(from) => if from is Some && to is Some && from->Some_0 > to->Some_0 {
                    Some("from_must_be_before_to"@)
                } else {
                    match cursor_param(v(q.cursor)) {
                        Err(e) => Some(e),
                        Ok(c) => if cursor_offset_of(c) is None && offset_param(v(q.offset)) is Err {
                            Some(offset_param(v(q.offset))->Err_0)
                        } else if symbol_filter(v(q.symbol)) is Err {
                            Some(symbol_filter(v(q.symbol))->Err_0)
                        } else if severity_filter(v(q.severity)) is Err {
                            Some(severity_filter(v(q.severity))->Err_0)
                        } else if signal_type_filter(v(q.signal_type)) is Err {
                            Some(signal_type_filter(v(q.signal_type))->Err_0)
                        } else if direction_filter(v(q.direction)) is Err {
                            Some(direction_filter(v(q.direction))->Err_0)
                        } else if optional_bool_param(v(q.discord_sent), "discord_sent"@) is Err {
                            Some(optional_bool_param(v(q.discord_sent), "discord_sent"@)->Err_0)
                        } else if window_sec_filter(v(q.window_sec)) is Err {
                            Some(window_sec_filter(v(q.window_sec))->Err_0)
                        } else if exchange_filter(v(q.exchange)) is Err {
                            Some(exchange_filter(v(q.exchange))->Err_0)
                        } else if net_direction_filter(v(q.net_direction)) is Err {
                            Some(net_direction_filter(v(q.net_direction))->Err_0)
                        } else if limit_param(limit, 50, 500) is Err {
                            Some(limit_param(limit, 50, 500)->Err_0)
                        } else {
                            None
                        }
                    }
                },
            },
        },
    }
}

/// The repository query of an accepted history query, field by field.
pub open spec fn history_fields_ok(q: ContractWhaleQuery, now: int, r: ContractWhaleSignalQuery) -> bool {
    let c = cursor_param(v(q.cursor))->Ok_0;
    &&& opt_i64_view(r.from_ts) == from_bound(q, now)->Ok_0
    &&& opt_i64_view(r.to_ts) == optional_i64_param(v(q.to), "to"@)->Ok_0
    &&& r.offset == match cursor_offset_of(c) {
        Some(n) => n,
        None => offset_param(v(q.offset))->Ok_0,
    }
    &&& opt_i64_view(r.cursor_ts) == match cursor_position_of(c) {
        Some(p) => Some(p.0),
        None => None,
    }
    &&& opt_string_view(r.cursor_signal_id) == match cursor_position_of(c) {
        Some(p) => Some(p.1),
        None => None,
    }
    &&& opt_string_view(r.symbol) == symbol_filter(v(q.symbol))->Ok_0
    &&& r.severity == severity_filter(v(q.severity))->Ok_0
    &&& r.signal_type == signal_type_filter(v(q.signal_type))->Ok_0
    &&& r.direction == direction_filter(v(q.direction))->Ok_0
    &&& r.discord_sent == optional_bool_param(v(q.discord_sent), "discord_sent"@)->Ok_0
    &&& r.window_sec == window_sec_filter(v(q.window_sec))->Ok_0
    &&& opt_string_view(r.exchange) == exchange_filter(v(q.exchange))->Ok_0
    &&& r.min_abs_net_volume_btc == net_direction_filter(v(q.net_direction))->Ok_0
    &&& r.limit == limit_param(v(q.limit), 50, 500)->Ok_0
}

fn opt_str(o: &Option<String>) -> (r: Option<&str>)
    ensures
        opt_view(r) == opt_string_view(*o),
{
    match o {
        Some(s) => Some(s.as_str()),
        None => None,
    }
}

/// Parses the history query at wall time `now` (milliseconds).
pub fn parse_history_query_at(query: &ContractWhaleQuery, now: i64) -> (r: Result<
    ContractWhaleSignalQuery,
    RequestRejection,
>)
    ensures
        match r {
            Ok(q) => history_error(*query, now as int) is None && history_fields_ok(
                *query,
                now as int,
                q,
            ),
            Err(e) => history_error(*query, now as int) matches Some(reason) && rejected_for(
                e,
                reason,
            ),
        },
{
    let explicit_from = match parse_optional_i64(opt_str(&query.from), "from") {
        Ok(f) => f,
        Err(e) => return Err(e),
    };
    let to_ts = match parse_optional_i64(opt_str(&query.to), "to") {
        Ok(t) => t,
        Err(e) => return Err(e),
    };
    let from_ts = match explicit_from {
        Some(f) => Some(f),
        None => match parse_range_start_ms_at(opt_str(&query.range), now) {
            Ok(f) => f,
            Err(e) => return Err(e),
        },
    };
    if let (Some(f), Some(t)) = (from_ts, to_ts) {
        if f > t {
            return Err(bad_request("from_must_be_before_to"));
        }
    }
    let parsed_cursor = match parse_cursor(opt_str(&query.cursor)) {
        Ok(c) => c,
        Err(e) => return Err(e),
    };
    let cursor_offset: Option<usize> = match &parsed_cursor {
        Some(ContractHistoryCursor::Offset(n)) => Some(*n),
        _ => None,
    };
    let offset = match cursor_offset {
        Some(n) => n,
        None => match parse_offset(opt_str(&query.offset)) {
            Ok(n) => n,
            Err(e) => return Err(e),
        },
    };
    let symbol = match parse_symbol_filter(opt_str(&query.symbol)) {
        Ok(s) => s,
        Err(e) => return Err(e),
    };
    let severity = match parse_severity_filter(opt_str(&query.severity)) {
        Ok(s) => s,
        Err(e) => return Err(e),
    };
    let signal_type = match parse_signal_type_filter(opt_str(&query.signal_type)) {
        Ok(s) => s,
        Err(e) => return Err(e),
    };
    let direction = match parse_direction_filter(opt_str(&query.direction)) {
        Ok(s) => s,
        Err(e) => return Err(e),
    };
    let discord_sent = match parse_optional_bool(opt_str(&query.discord_sent), "discord_sent") {
        Ok(s) => s,
        Err(e) => return Err(e),
    };
    let window_sec = match parse_window_sec_filter(opt_str(&query.window_sec)) {
        Ok(s) => s,
        Err(e) => return Err(e),
    };
    let exchange = match parse_exchange_filter(opt_str(&query.exchange)) {
        Ok(s) => s,
        Err(e) => return Err(e),
    };
    let min_abs_net_volume_btc = match parse_net_direction_filter(opt_str(&query.net_direction)) {
        Ok(s) => s,
        Err(e) => return Err(e),
    };
    let limit = match parse_limit(opt_str(&query.limit), 50, 500) {
        Ok(n) => n,
        Err(e) => return Err(e),
    };
    let (cursor_ts, cursor_signal_id) = match parsed_cursor {
        Some(ContractHistoryCursor::Positioned { ts, signal_id }) => (Some(ts), Some(signal_id)),
        _ => (None, None),
    };
    Ok(
        ContractWhaleSignalQuery {
            symbol,
            severity,
            signal_type,
            direction,
            discord_sent,
            window_sec,
            exchange,
            min_abs_net_volume_btc,
            from_ts,
            to_ts,
            cursor_ts,
            cursor_signal_id,
            limit,
            offset,
        },
    )
}

/// What parsing the history query at `now` gives.
pub open spec fn history_outcome(
    query: ContractWhaleQuery,
    now: i64,
    r: Result<ContractWhaleSignalQuery, RequestRejection>,
) -> bool {
    match r {
        Ok(q) => history_error(query, now as int) is None && history_fields_ok(query, now as int, q),
        Err(e) => history_error(query, now as int) matches Some(reason) && rejected_for(e, reason),
    }
}

/// Parses the history query now: a named range counts back from the wall
/// clock, read once.
pub fn parse_history_query(query: &ContractWhaleQuery) -> (r: Result<
    ContractWhaleSignalQuery,
    RequestRejection,
>)
    ensures
        exists|now: i64| #[trigger] history_outcome(*query, now, r),
{
    let now = crate::clock::now_ms();
    let r = parse_history_query_at(query, now);
    assert(history_outcome(*query, now, r));
    r
}

/// A query that sets no parameter but its cursor.
pub open spec fn only_cursor(q: ContractWhaleQuery) -> bool {
    &&& q.limit is None
    &&& q.symbol is None
    &&& q.severity is None
    &&& q.signal_type is None
    &&& q.direction is None
    &&& q.discord_sent is None
    &&& q.window_sec is None
    &&& q.exchange is None
    &&& q.net_direction is None
    &&& q.range is None
    &&& q.from is None
    &&& q.to is None
    &&& q.offset is None
    &&& q.cursor is Some
}

/// A history query whose only parameter is a cursor token that reads back
/// as the position `(ts, signal_id)`, as every token of
/// `encode_contract_history_cursor` does for a trimmed, non-empty id, is
/// accepted at any wall time and continues after that position from
/// offset 0.
pub proof fn law_history_position_cursor(
    q: ContractWhaleQuery,
    now: i64,
    r: Result<ContractWhaleSignalQuery, RequestRejection>,
    ts: i64,
    signal_id: Seq<char>,
)
    requires
        only_cursor(q),
        cursor_param(v(q.cursor)) == Ok::<
            Option<(Option<int>, Option<(int, Seq<char>)>)>,
            Seq<char>,
        >(Some((None, Some((ts as int, signal_id))))),
        history_outcome(q, now, r),
    ensures
        r is Ok,
        r->Ok_0.cursor_ts == Some(ts),
        opt_string_view(r->Ok_0.cursor_signal_id) == Some(signal_id),
        r->Ok_0.offset == 0,
{
    assert(history_error(q, now as int) is None);
}

/// A history query whose only parameter is a cursor written as a plain
/// number is accepted at any wall time and pages from that offset, with no
/// position.
pub proof fn law_history_offset_cursor(
    q: ContractWhaleQuery,
    now: i64,
    r: Result<ContractWhaleSignalQuery, RequestRejection>,
    n: usize,
)
    requires
        only_cursor(q),
        q.cursor->Some_0@ == nat_decimal(n as nat),
        history_outcome(q, now, r),
    ensures
        r is Ok,
        r->Ok_0.offset == n,
        r->Ok_0.cursor_ts is None,
        r->Ok_0.cursor_signal_id is None,
{
    let d = nat_decimal(n as nat);
    lemma_nat_decimal_digits(n as nat);
    assert forall|i: int| 0 <= i < d.len() implies !crate::text::char_is_whitespace(#[trigger] d[i]) by {
        assert(crate::text::is_ascii_digit(d[i]));
    }
    crate::text::lemma_trim_noop(d);
    assert(crate::text::unsigned_body(d) == d);
    assert(parse_unsigned(d, usize::MAX as int) == Some(n as int));
    assert(history_error(q, now as int) is None);
}

// ---------------------------------------------------------------------------
// Lemmas of the cursor round trip
// ---------------------------------------------------------------------------

/// Decimal digits are digits, never empty.
pub proof fn lemma_nat_decimal_digits(n: nat)
    ensures
        nat_decimal(n).len() >= 1,
        crate::text::all_digits(nat_decimal(n)),
        crate::text::digits_val(nat_decimal(n)) == n,
    decreases n,
{
    if n < 10 {
        let e = nat_decimal(n);
        assert(e.drop_last() =~= Seq::<char>::empty());
        assert(crate::text::digits_val(Seq::<char>::empty()) == 0);
        assert(crate::text::digit_val(e.last()) == n);
        assert(crate::text::digits_val(e) == crate::text::digits_val(e.drop_last()) * 10
            + crate::text::digit_val(e.last()));
    } else {
        lemma_nat_decimal_digits(n / 10);
        let d = nat_decimal(n / 10);
        let e = nat_decimal(n);
        assert(e == d.push((('0' as u32) + (n % 10)) as char));
        assert(e.drop_last() =~= d);
        assert(crate::text::digit_val(e.last()) == n % 10);
        assert(crate::text::digits_val(e) == crate::text::digits_val(e.drop_last()) * 10
            + crate::text::digit_val(e.last()));
        assert((n / 10) * 10 + n % 10 == n);
        assert forall|i: int| 0 <= i < e.len() implies crate::text::is_ascii_digit(
            #[trigger] e[i],
        ) by {
            if i < d.len() {
                assert(e[i] == d[i]);
            }
        }
    }
}

/// Decimal text has no `|`, no white space, and reads back as its value.
pub proof fn lemma_decimal_shape(v: int)
    requires
        i64::MIN <= v <= i64::MAX,
    ensures
        forall|i: int| 0 <= i < int_decimal(v).len() ==> #[trigger] int_decimal(v)[i] != '|'
            && !crate::text::char_is_whitespace(int_decimal(v)[i]),
        int_decimal(v).len() <= 20,
        parse_i64_spec(int_decimal(v)) == Some(v),
{
    let t = int_decimal(v);
    if v < 0 {
        let n = (-v) as nat;
        lemma_nat_decimal_digits(n);
        lemma_nat_decimal_len(n);
        let d = nat_decimal(n);
        assert(t == seq!['-'] + d);
        assert(crate::text::signed_body(t) =~= d);
        assert forall|i: int| 0 <= i < t.len() implies #[trigger] t[i] != '|'
            && !crate::text::char_is_whitespace(t[i]) by {
            if i > 0 {
                assert(t[i] == d[i - 1]);
                assert(crate::text::is_ascii_digit(d[i - 1]));
            }
        }
    } else {
        let n = v as nat;
        lemma_nat_decimal_digits(n);
        lemma_nat_decimal_len(n);
        let d = nat_decimal(n);
        assert(crate::text::is_ascii_digit(d[0]));
        assert(crate::text::signed_body(t) =~= d);
        assert forall|i: int| 0 <= i < t.len() implies #[trigger] t[i] != '|'
            && !crate::text::char_is_whitespace(t[i]) by {
            assert(crate::text::is_ascii_digit(d[i]));
        }
    }
}

/// `10^k`.
pub open spec fn ten_pow(k: nat) -> nat
    decreases k,
{
    if k == 0 {
        1
    } else {
        10 * ten_pow((k - 1) as nat)
    }
}

/// A number below `10^19` has at most 19 digits.
pub proof fn lemma_nat_decimal_len(n: nat)
    requires
        n <= 9223372036854775808,
    ensures
        nat_decimal(n).len() <= 19,
{
    reveal_with_fuel(ten_pow, 20);
    assert(ten_pow(19) == 10000000000000000000nat);
    lemma_nat_decimal_len_bound(n, 19);
}

proof fn lemma_nat_decimal_len_bound(n: nat, k: nat)
    requires
        k >= 1,
        n < ten_pow(k),
    ensures
        nat_decimal(n).len() <= k,
    decreases k,
{
    if n >= 10 {
        if k == 1 {
            assert(ten_pow(1) == 10) by {
                reveal_with_fuel(ten_pow, 2);
            }
        }
        assert(n / 10 < ten_pow((k - 1) as nat));
        lemma_nat_decimal_len_bound(n / 10, (k - 1) as nat);
    }
}

/// UTF-8 takes at most four bytes per character.
pub proof fn lemma_encode_utf8_len(s: Seq<char>)
    ensures
        encode_utf8(s).len() <= 4 * s.len(),
    decreases s.len(),
{
    if s.len() > 0 {
        lemma_encode_utf8_len(s.drop_first());
    }
}

/// A cursor token never reads as an offset: its text starts with `-` or a
/// digit, whose byte puts `L` to `O` first in the base64 text.
pub proof fn lemma_cursor_token_is_no_offset(ts: int, signal_id: Seq<char>)
    requires
        i64::MIN <= ts <= i64::MAX,
    ensures
        encode_utf8(cursor_text(ts, signal_id)).len() > 0,
        encode_utf8(cursor_text(ts, signal_id))[0] / 4 >= 11,
        encode_utf8(cursor_text(ts, signal_id))[0] / 4 <= 14,
{
    let t = cursor_text(ts, signal_id);
    if ts < 0 {
        lemma_nat_decimal_digits((-ts) as nat);
    } else {
        lemma_nat_decimal_digits(ts as nat);
    }
    let c = t[0];
    assert(c == '-' || ('0' <= c && c <= '9'));
    let v = c as u32;
    assert(45 <= v <= 57);
    assert(encode_utf8(t) == encode_scalar(v) + encode_utf8(t.drop_first()));
    assert((v & 0x7F) == v) by (bit_vector)
        requires
            45 <= v <= 57,
    ;
    assert(encode_utf8(t)[0] == v as u8);
}

/// The position text of a cursor reads back as its time and id, when the
/// id is trimmed and not empty.
pub proof fn lemma_position_of_cursor_text(ts: int, signal_id: Seq<char>)
    requires
        i64::MIN <= ts <= i64::MAX,
        trim(signal_id) == signal_id,
        signal_id.len() > 0,
    ensures
        position_of_text(cursor_text(ts, signal_id)) == Some((ts, signal_id)),
{
    reveal_strlit("|");
    lemma_decimal_shape(ts);
    let d = int_decimal(ts);
    let s = cursor_text(ts, signal_id);
    let i = d.len() as int;
    assert(s[i] == '|');
    assert forall|j: int| 0 <= j < i implies s[j] != '|' by {
        assert(s[j] == d[j]);
    }
    assert(first_bar_at(s, i));
    let k = choose|k: int| first_bar_at(s, k);
    if k < i {
        assert(s[k] != '|');
    } else if k > i {
        assert(s[i] != '|');
    }
    assert(s.subrange(0, i) =~= d);
    crate::text::lemma_trim_noop(d);
    assert(s.subrange(i + 1, s.len() as int) =~= signal_id);
}

} // verus!
