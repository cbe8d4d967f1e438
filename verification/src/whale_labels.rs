//! Labels, keys and small scores of the contract-whale routes.
use vstd::prelude::*;

use crate::keyed::{lemma_key_lt_at, lemma_push_ascending, Keyed};
use crate::projection::key_lt;
use crate::text::{
    chars_of, char_is_control, ends_with, ends_with_str, eq_str, is_control, lower, lower_chars,
    prefix_chars, string_of, trim, trim_chars, trim_end_matches, trim_end_matches_str, upper,
    upper_chars,
};
use crate::whale_query::{ContractWhaleDirection, ContractWhaleSeverity, ContractWhaleSignalType};

verus! {

// ---------------------------------------------------------------------------
// Text helpers
// ---------------------------------------------------------------------------

/// The characters of `s` before the first one in `seps` (all of `s` when
/// none is), as `split(seps).next()` gives.
pub open spec fn take_until(s: Seq<char>, seps: Seq<char>) -> Seq<char>
    decreases s.len(),
{
    if s.len() == 0 {
        s
    } else if seps.contains(s[0]) {
        Seq::empty()
    } else {
        seq![s[0]] + take_until(s.drop_first(), seps)
    }
}

proof fn lemma_take_until(s: Seq<char>, seps: Seq<char>, i: int)
    requires
        0 <= i <= s.len(),
        forall|j: int| 0 <= j < i ==> !seps.contains(#[trigger] s[j]),
        i == s.len() || seps.contains(s[i]),
    ensures
        take_until(s, seps) == s.subrange(0, i),
    decreases i,
{
    if i == 0 {
        assert(s.subrange(0, 0) =~= Seq::<char>::empty());
        if s.len() == 0 {
            assert(s =~= Seq::<char>::empty());
        }
    } else {
        let t = s.drop_first();
        assert forall|j: int| 0 <= j < i - 1 implies !seps.contains(#[trigger] t[j]) by {
            assert(t[j] == s[j + 1]);
            assert(!seps.contains(s[j + 1]));
        }
        if i - 1 < t.len() {
            assert(t[i - 1] == s[i]);
        }
        assert(!seps.contains(s[0]));
        lemma_take_until(t, seps, i - 1);
        assert(s.subrange(0, i) =~= seq![s[0]] + t.subrange(0, i - 1));
    }
}

fn take_until_exec(s: &Vec<char>, seps: &Vec<char>) -> (r: Vec<char>)
    ensures
        r@ == take_until(s@, seps@),
{
    let mut i: usize = 0;
    while i < s.len()
        invariant
            i <= s@.len(),
            forall|j: int| 0 <= j < i ==> !seps@.contains(#[trigger] s@[j]),
        decreases s.len() - i,
    {
        let c = s[i];
        let mut hit = false;
        let mut k: usize = 0;
        while k < seps.len()
            invariant
                k <= seps@.len(),
                hit == (exists|m: int| 0 <= m < k && seps@[m] == c),
            decreases seps.len() - k,
        {
            if seps[k] == c {
                hit = true;
            }
            k = k + 1;
        }
        if hit {
            proof {
                let m = choose|m: int| 0 <= m < k && seps@[m] == c;
                assert(seps@.contains(s@[i as int]));
                lemma_take_until(s@, seps@, i as int);
            }
            return prefix_chars(s, i);
        }
        proof {
            assert(!seps@.contains(c)) by {
                if seps@.contains(c) {
                    let m = choose|m: int| 0 <= m < seps@.len() && seps@[m] == c;
                    assert(exists|m2: int| 0 <= m2 < k && seps@[m2] == c);
                }
            }
        }
        i = i + 1;
    }
    proof {
        lemma_take_until(s@, seps@, i as int);
        assert(s@.subrange(0, i as int) =~= s@);
    }
    prefix_chars(s, i)
}

/// `s` with `p` removed once from its end, when it ends with `p`.
pub open spec fn strip_suffix(s: Seq<char>, p: Seq<char>) -> Seq<char> {
    if ends_with(s, p) {
        s.subrange(0, s.len() - p.len())
    } else {
        s
    }
}

fn strip_suffix_exec(s: Vec<char>, p: &str) -> (r: Vec<char>)
    ensures
        r@ == strip_suffix(s@, p@),
{
    if ends_with_str(&s, p) {
        let n = s.len() - chars_of(p).len();
        prefix_chars(&s, n)
    } else {
        s
    }
}

pub open spec fn symbol_separators() -> Seq<char> {
    seq!['-', '_', '/', ':']
}

fn symbol_separators_exec() -> (r: Vec<char>)
    ensures
        r@ == symbol_separators(),
{
    let mut v: Vec<char> = Vec::new();
    v.push('-');
    v.push('_');
    v.push('/');
    v.push(':');
    proof {
        assert(v@ =~= symbol_separators());
    }
    v
}

// ---------------------------------------------------------------------------
// Symbols
// ---------------------------------------------------------------------------

/// The base asset of a contract symbol: the trimmed text before the first
/// `-`, `_`, `/` or `:`, with `USDT` and then `USD` removed from its end as
/// often as they occur, upper-cased.
pub open spec fn base_asset_of(symbol: Seq<char>) -> Seq<char> {
    upper(
        trim_end_matches(
            trim_end_matches(take_until(trim(symbol), symbol_separators()), "USDT"@),
            "USD"@,
        ),
    )
}

pub fn contract_base_asset(symbol: &str) -> (r: String)
    ensures
        r@ == base_asset_of(symbol@),
{
    let t = trim_chars(&chars_of(symbol));
    let head = take_until_exec(&t, &symbol_separators_exec());
    let a = trim_end_matches_str(&head, "USDT");
    let b = trim_end_matches_str(&a, "USD");
    string_of(&upper_chars(&b))
}

pub open spec fn symbol_root(s: Seq<char>) -> Seq<char> {
    upper(take_until(trim(s), symbol_separators()))
}

/// Whether a flow window's symbol and a requested one share their root:
/// the trimmed text before the first separator, ignoring ASCII case.
pub fn symbol_matches_window(window_symbol: &str, requested_symbol: &str) -> (r: bool)
    ensures
        r == (symbol_root(window_symbol@) == symbol_root(requested_symbol@)),
{
    let seps = symbol_separators_exec();
    let a = upper_chars(&take_until_exec(&trim_chars(&chars_of(window_symbol)), &seps));
    let b = upper_chars(&take_until_exec(&trim_chars(&chars_of(requested_symbol)), &seps));
    crate::text::eq_chars(&a, &b)
}

/// The base of a symbol for prefix matching: upper-cased and trimmed, cut
/// before the first `:`, `/` or `_` and then before the first `-`, with
/// `PERP`, `USDT`, `USD` and `F0` each stripped once from the end, in that
/// order.
pub open spec fn base_prefix_of(symbol: Seq<char>) -> Seq<char> {
    let u = upper(trim(symbol));
    let head = take_until(take_until(u, seq![':', '/', '_']), seq!['-']);
    strip_suffix(strip_suffix(strip_suffix(strip_suffix(head, "PERP"@), "USDT"@), "USD"@), "F0"@)
}

pub fn symbol_base_prefix(symbol: &str) -> (r: String)
    ensures
        r@ == base_prefix_of(symbol@),
{
    let u = upper_chars(&trim_chars(&chars_of(symbol)));
    let mut first: Vec<char> = Vec::new();
    first.push(':');
    first.push('/');
    first.push('_');
    let mut dash: Vec<char> = Vec::new();
    dash.push('-');
    proof {
        assert(first@ =~= seq![':', '/', '_']);
        assert(dash@ =~= seq!['-']);
    }
    let head = take_until_exec(&take_until_exec(&u, &first), &dash);
    let a = strip_suffix_exec(head, "PERP");
    let b = strip_suffix_exec(a, "USDT");
    let c = strip_suffix_exec(b, "USD");
    let d = strip_suffix_exec(c, "F0");
    string_of(&d)
}

/// The base asset of a symbol, where it names one: `BTCUSDT`, `btc-perp`
/// and `BTC` all have the base `BTC`; a blank symbol has none.
pub open spec fn canonical_base(symbol: Seq<char>) -> Option<Seq<char>> {
    if base_prefix_of(symbol).len() > 0 {
        Some(base_prefix_of(symbol))
    } else {
        None
    }
}

pub fn canonical_base_asset(symbol: &str) -> (r: Option<String>)
    ensures
        match r {
            Some(b) => canonical_base(symbol@) == Some(b@),
            None => canonical_base(symbol@) is None,
        },
{
    let base = symbol_base_prefix(symbol);
    if chars_of(base.as_str()).len() > 0 {
        Some(base)
    } else {
        None
    }
}

/// The unit of a 60-second trend, as far as it is named.
pub struct TrendUnitFields {
    pub quantity_unit: String,
    pub base_asset: String,
    pub symbol: String,
}

/// The quantity unit if not blank, else the base asset if not blank, else
/// the base asset of the symbol if that is not blank, else BTC.
pub open spec fn unit_of(t: TrendUnitFields) -> Seq<char> {
    if trim(t.quantity_unit@).len() > 0 {
        t.quantity_unit@
    } else if trim(t.base_asset@).len() > 0 {
        t.base_asset@
    } else if trim(t.symbol@).len() > 0 {
        base_asset_of(t.symbol@)
    } else {
        "BTC"@
    }
}

pub fn trend_summary_unit(trend: &TrendUnitFields) -> (r: String)
    ensures
        r@ == unit_of(*trend),
{
    if trim_chars(&chars_of(trend.quantity_unit.as_str())).len() > 0 {
        return trend.quantity_unit.clone();
    }
    if trim_chars(&chars_of(trend.base_asset.as_str())).len() > 0 {
        return trend.base_asset.clone();
    }
    if trim_chars(&chars_of(trend.symbol.as_str())).len() > 0 {
        return contract_base_asset(trend.symbol.as_str());
    }
    String::from_str("BTC")
}

// ---------------------------------------------------------------------------
// Logged and exported text
// ---------------------------------------------------------------------------

/// The characters of `s` that are not control characters, in order.
pub open spec fn without_controls(s: Seq<char>) -> Seq<char>
    decreases s.len(),
{
    if s.len() == 0 {
        s
    } else if char_is_control(s.last()) {
        without_controls(s.drop_last())
    } else {
        without_controls(s.drop_last()).push(s.last())
    }
}

/// A user agent fit for a log line: control characters dropped, at most
/// 180 characters kept.
pub open spec fn sanitized_agent(s: Seq<char>) -> Seq<char> {
    let w = without_controls(s);
    if w.len() <= 180 {
        w
    } else {
        w.subrange(0, 180)
    }
}

pub fn sanitize_user_agent(value: &str) -> (r: String)
    ensures
        r@ == sanitized_agent(value@),
{
    let s = chars_of(value);
    let mut out: Vec<char> = Vec::new();
    let mut i: usize = 0;
    while i < s.len() && out.len() < 180
        invariant
            i <= s@.len(),
            out@.len() <= 180,
            out@ == sanitized_agent(s@.subrange(0, i as int)),
            out@.len() < 180 ==> out@ == without_controls(s@.subrange(0, i as int)),
        decreases s.len() - i,
    {
        proof {
            assert(s@.subrange(0, i + 1).drop_last() =~= s@.subrange(0, i as int));
        }
        if !is_control(s[i]) {
            out.push(s[i]);
        }
        i = i + 1;
    }
    proof {
        lemma_sanitized_prefix(s@, i as int, out@);
    }
    string_of(&out)
}

proof fn lemma_without_controls_prefix(s: Seq<char>, i: int, j: int)
    requires
        0 <= i <= j <= s.len(),
    ensures
        without_controls(s.subrange(0, i)).len() <= without_controls(s.subrange(0, j)).len(),
        without_controls(s.subrange(0, j)).subrange(0, without_controls(s.subrange(0, i)).len() as int)
            == without_controls(s.subrange(0, i)),
    decreases j - i,
{
    if i < j {
        lemma_without_controls_prefix(s, i, j - 1);
        assert(s.subrange(0, j).drop_last() =~= s.subrange(0, j - 1));
        let a = without_controls(s.subrange(0, j - 1));
        let b = without_controls(s.subrange(0, j));
        let c = without_controls(s.subrange(0, i));
        if !char_is_control(s[j - 1]) {
            assert(b == a.push(s[j - 1]));
            assert(b.subrange(0, c.len() as int) =~= a.subrange(0, c.len() as int));
        }
    } else {
        let c = without_controls(s.subrange(0, i));
        assert(c.subrange(0, c.len() as int) =~= c);
    }
}

proof fn lemma_sanitized_prefix(s: Seq<char>, i: int, out: Seq<char>)
    requires
        0 <= i <= s.len(),
        out.len() <= 180,
        out == sanitized_agent(s.subrange(0, i)),
        out.len() < 180 ==> out == without_controls(s.subrange(0, i)),
        i == s.len() || out.len() == 180,
    ensures
        out == sanitized_agent(s),
{
    assert(s.subrange(0, s.len() as int) =~= s);
    if i < s.len() {
        lemma_without_controls_prefix(s, i, s.len() as int);
        let w = without_controls(s.subrange(0, i));
        if w.len() <= 180 {
            assert(out == w);
            assert(without_controls(s).subrange(0, 180) =~= w);
        } else {
            assert(without_controls(s).subrange(0, 180) =~= w.subrange(0, 180)) by {
                assert(without_controls(s).subrange(0, w.len() as int) == w);
            }
        }
    }
}

pub open spec fn label_char(c: char) -> Option<char> {
    if ('a' <= c && c <= 'z') || ('A' <= c && c <= 'Z') || ('0' <= c && c <= '9') || c == '_' || c
        == '-' || c == '.' {
        Some(c)
    } else if c == ' ' {
        Some('_')
    } else {
        None
    }
}

/// The kept characters of `s`, spaces turned into `_`.
pub open spec fn label_chars(s: Seq<char>) -> Seq<char>
    decreases s.len(),
{
    if s.len() == 0 {
        s
    } else {
        match label_char(s.last()) {
            Some(c) => label_chars(s.drop_last()).push(c),
            None => label_chars(s.drop_last()),
        }
    }
}

/// A metrics label: letters, digits, `_`, `-` and `.` kept, spaces turned
/// into `_`, everything else dropped, lower-cased.
pub fn metric_label(value: &str) -> (r: String)
    ensures
        r@ == lower(label_chars(value@)),
{
    let s = chars_of(value);
    let mut out: Vec<char> = Vec::new();
    let mut i: usize = 0;
    while i < s.len()
        invariant
            i <= s@.len(),
            out@ == label_chars(s@.subrange(0, i as int)),
        decreases s.len() - i,
    {
        proof {
            assert(s@.subrange(0, i + 1).drop_last() =~= s@.subrange(0, i as int));
        }
        let c = s[i];
        if ('a' <= c && c <= 'z') || ('A' <= c && c <= 'Z') || ('0' <= c && c <= '9') || c == '_'
            || c == '-' || c == '.' {
            out.push(c);
        } else if c == ' ' {
            out.push('_');
        }
        i = i + 1;
    }
    proof {
        assert(s@.subrange(0, s@.len() as int) =~= s@);
    }
    string_of(&lower_chars(&out))
}

/// The filter echoed by the contract-whale routes, in key order: `dryRun`,
/// `enabled`, `market` and `marketType` ("perp"), `readOnly` ("true"), and
/// the symbol.
pub fn response_filter(symbol: &str, enabled: bool, dry_run: bool) -> (r: Keyed<String>)
    ensures
        r.wf(),
        crate::keyed::keys_ascending(r.entries@),
        r.view().dom().len() == 6,
        r.view().contains_key("symbol"@) && r.view()["symbol"@]@ == symbol@,
        r.view().contains_key("market"@) && r.view()["market"@]@ == "perp"@,
        r.view().contains_key("marketType"@) && r.view()["marketType"@]@ == "perp"@,
        r.view().contains_key("readOnly"@) && r.view()["readOnly"@]@ == "true"@,
        r.view().contains_key("enabled"@) && r.view()["enabled"@]@ == (if enabled {
            "true"@
        } else {
            "false"@
        }),
        r.view().contains_key("dryRun"@) && r.view()["dryRun"@]@ == (if dry_run {
            "true"@
        } else {
            "false"@
        }),
{
    proof {
        reveal_strlit("symbol");
        reveal_strlit("market");
        reveal_strlit("marketType");
        reveal_strlit("readOnly");
        reveal_strlit("enabled");
        reveal_strlit("dryRun");
        let ks = seq!["dryRun"@, "enabled"@, "market"@, "marketType"@, "readOnly"@, "symbol"@];
        assert forall|i: int, j: int| 0 <= i < j < 6 && !(i == 2 && j == 3) implies key_lt(
            #[trigger] ks[i],
            #[trigger] ks[j],
        ) by {
            lemma_key_lt_at(ks[i], ks[j], 0);
        }
        lemma_key_lt_at("market"@, "marketType"@, 6);
    }
    let mut filter: Keyed<String> = Keyed::new();
    filter.insert(
        String::from_str("dryRun"),
        String::from_str(
            if dry_run {
                "true"
            } else {
                "false"
            },
        ),
    );
    let ghost e1 = filter.entries@;
    filter.insert(
        String::from_str("enabled"),
        String::from_str(
            if enabled {
                "true"
            } else {
                "false"
            },
        ),
    );
    proof {
        lemma_push_ascending(e1, filter.entries@.last());
    }
    let ghost e2 = filter.entries@;
    filter.insert(String::from_str("market"), String::from_str("perp"));
    proof {
        lemma_push_ascending(e2, filter.entries@.last());
    }
    let ghost e3 = filter.entries@;
    filter.insert(String::from_str("marketType"), String::from_str("perp"));
    proof {
        lemma_push_ascending(e3, filter.entries@.last());
    }
    let ghost e4 = filter.entries@;
    filter.insert(String::from_str("readOnly"), String::from_str("true"));
    proof {
        lemma_push_ascending(e4, filter.entries@.last());
    }
    let ghost e5 = filter.entries@;
    filter.insert(String::from_str("symbol"), String::from_str(symbol));
    proof {
        lemma_push_ascending(e5, filter.entries@.last());
        crate::keyed::lemma_entries_map(filter.entries@);
    }
    filter
}

// ---------------------------------------------------------------------------
// Scores and regimes of a signal
// ---------------------------------------------------------------------------

/// What the structure scores read of a contract-whale signal.
pub struct WhaleSignalFacts {
    pub severity: ContractWhaleSeverity,
    pub direction: ContractWhaleDirection,
    pub signal_type: ContractWhaleSignalType,
    pub score: u8,
    pub liquidation_suspected: bool,
}

pub open spec fn cross_confirm(confirmation: Seq<char>) -> u8 {
    if confirmation == "confirms_contract_direction"@ {
        75
    } else if confirmation == "spot_absorption_against_contract_sell"@ || confirmation
        == "spot_resistance_against_contract_buy"@ {
        65
    } else if confirmation == "spot_divergence"@ {
        25
    } else if confirmation == "spot_context_only"@ {
        45
    } else {
        0
    }
}

/// How much the spot market confirms the contract flow.
pub fn cross_confirm_score(confirmation_type: &str) -> (r: u8)
    ensures
        r == cross_confirm(confirmation_type@),
{
    let c = chars_of(confirmation_type);
    if eq_str(&c, "confirms_contract_direction") {
        75
    } else if eq_str(&c, "spot_absorption_against_contract_sell") || eq_str(
        &c,
        "spot_resistance_against_contract_buy",
    ) {
        65
    } else if eq_str(&c, "spot_divergence") {
        25
    } else if eq_str(&c, "spot_context_only") {
        45
    } else {
        0
    }
}

pub open spec fn sat_sub_u8(a: u8, b: int) -> int {
    if a - b < 0 {
        0
    } else {
        a - b
    }
}

pub open spec fn extreme_impact(signal: WhaleSignalFacts) -> int {
    let base = match signal.severity {
        ContractWhaleSeverity::S => signal.score as int,
        ContractWhaleSeverity::Critical => sat_sub_u8(signal.score, 5),
        ContractWhaleSeverity::High => sat_sub_u8(signal.score, 15),
        ContractWhaleSeverity::Medium => sat_sub_u8(signal.score, 25),
        ContractWhaleSeverity::Calm => 0,
    };
    if signal.liquidation_suspected {
        if base + 8 > 100 {
            100
        } else {
            base + 8
        }
    } else {
        base
    }
}

/// The extreme-impact score: the signal score lowered by severity (none for
/// S, 5 for critical, 15 for high, 25 for medium, zero when calm), raised by
/// 8 up to 100 when liquidations are suspected.
pub fn extreme_impact_score(signal: &WhaleSignalFacts) -> (r: u8)
    ensures
        r == extreme_impact(*signal),
{
    let base: u8 = match signal.severity {
        ContractWhaleSeverity::S => signal.score,
        ContractWhaleSeverity::Critical => signal.score.saturating_sub(5),
        ContractWhaleSeverity::High => signal.score.saturating_sub(15),
        ContractWhaleSeverity::Medium => signal.score.saturating_sub(25),
        ContractWhaleSeverity::Calm => 0,
    };
    if signal.liquidation_suspected {
        let raised = base.saturating_add(8);
        if raised > 100 {
            100
        } else {
            raised
        }
    } else {
        base
    }
}

/// Rust's `/` on integers: rounds toward zero.
pub open spec fn div_trunc(a: int, b: int) -> int {
    if a >= 0 {
        a / b
    } else {
        -((-a) / b)
    }
}

pub open spec fn clamp_int(v: int, lo: int, hi: int) -> int {
    if v < lo {
        lo
    } else if v > hi {
        hi
    } else {
        v
    }
}

pub open spec fn bias_of(signal: WhaleSignalFacts, confirmation: Seq<char>) -> int {
    let base: int = match signal.direction {
        ContractWhaleDirection::Buy => signal.score as int,
        ContractWhaleDirection::Sell => -(signal.score as int),
        ContractWhaleDirection::Absorption => 25,
        ContractWhaleDirection::Suppression => -25,
    };
    let adjusted = if confirmation == "confirms_contract_direction"@ {
        base
    } else if confirmation == "spot_absorption_against_contract_sell"@ {
        20
    } else if confirmation == "spot_resistance_against_contract_buy"@ {
        -20
    } else if confirmation == "spot_divergence"@ {
        div_trunc(base, 2)
    } else {
        div_trunc(base * 2, 3)
    };
    clamp_int(adjusted, -100, 100)
}

/// The structure bias, from -100 (bearish) to 100 (bullish): signed by the
/// flow's direction and adjusted by the spot confirmation.
pub fn structure_bias(signal: &WhaleSignalFacts, confirmation_type: &str) -> (r: i16)
    ensures
        r == bias_of(*signal, confirmation_type@),
{
    let base: i16 = match signal.direction {
        ContractWhaleDirection::Buy => signal.score as i16,
        ContractWhaleDirection::Sell => -(signal.score as i16),
        ContractWhaleDirection::Absorption => 25,
        ContractWhaleDirection::Suppression => -25,
    };
    let c = chars_of(confirmation_type);
    let adjusted: i16 = if eq_str(&c, "confirms_contract_direction") {
        base
    } else if eq_str(&c, "spot_absorption_against_contract_sell") {
        20
    } else if eq_str(&c, "spot_resistance_against_contract_buy") {
        -20
    } else if eq_str(&c, "spot_divergence") {
        base / 2
    } else {
        base * 2 / 3
    };
    if adjusted < -100 {
        -100
    } else if adjusted > 100 {
        100
    } else {
        adjusted
    }
}

pub open spec fn regime_of(signal: WhaleSignalFacts, confirmation: Seq<char>) -> Seq<char> {
    if signal.liquidation_suspected {
        match signal.direction {
            ContractWhaleDirection::Sell => "long_liquidation_cascade"@,
            ContractWhaleDirection::Buy => "contract_short_squeeze"@,
            _ => "extreme_contract_flow"@,
        }
    } else if confirmation == "spot_absorption_against_contract_sell"@ {
        "downside_absorption"@
    } else if confirmation == "spot_resistance_against_contract_buy"@ {
        "upside_resistance"@
    } else if confirmation == "confirms_contract_direction"@ {
        match signal.direction {
            ContractWhaleDirection::Buy => "main_force_long_build"@,
            ContractWhaleDirection::Sell => "main_force_short_build"@,
            _ => "range_rotation"@,
        }
    } else if confirmation == "spot_divergence"@ {
        "range_rotation"@
    } else {
        match signal.signal_type {
            ContractWhaleSignalType::DownsideAbsorption => "downside_absorption"@,
            ContractWhaleSignalType::UpsideSuppression => "upside_resistance"@,
            _ => "contract_flow_shock"@,
        }
    }
}

/// The market regime a signal points to, given the spot confirmation.
pub fn market_regime_type(signal: &WhaleSignalFacts, confirmation_type: &str) -> (r: &'static str)
    ensures
        r@ == regime_of(*signal, confirmation_type@),
{
    if signal.liquidation_suspected {
        return match signal.direction {
            ContractWhaleDirection::Sell => "long_liquidation_cascade",
            ContractWhaleDirection::Buy => "contract_short_squeeze",
            _ => "extreme_contract_flow",
        };
    }
    let c = chars_of(confirmation_type);
    if eq_str(&c, "spot_absorption_against_contract_sell") {
        "downside_absorption"
    } else if eq_str(&c, "spot_resistance_against_contract_buy") {
        "upside_resistance"
    } else if eq_str(&c, "confirms_contract_direction") {
        match signal.direction {
            ContractWhaleDirection::Buy => "main_force_long_build",
            ContractWhaleDirection::Sell => "main_force_short_build",
            _ => "range_rotation",
        }
    } else if eq_str(&c, "spot_divergence") {
        "range_rotation"
    } else {
        match signal.signal_type {
            ContractWhaleSignalType::DownsideAbsorption => "downside_absorption",
            ContractWhaleSignalType::UpsideSuppression => "upside_resistance",
            _ => "contract_flow_shock",
        }
    }
}

pub open spec fn reason_of(regime: Seq<char>, confirmation: Seq<char>) -> Seq<char> {
    if regime == "main_force_long_build"@ {
        "合约主动买入与现货方向确认，主力建多概率提高。"@
    } else if regime == "main_force_short_build"@ {
        "合约主动卖出与现货方向确认，主力建空概率提高。"@
    } else if regime == "downside_absorption"@ {
        "合约卖压出现时现货呈承接/吸收，暂按下方吸收观察。"@
    } else if regime == "upside_resistance"@ {
        "合约买盘出现时现货呈压制/派发，暂按上方压制观察。"@
    } else if regime == "long_liquidation_cascade"@ || regime == "contract_short_squeeze"@ {
        "疑似清算驱动，极端冲击升高，但不直接确认主力建仓。"@
    } else if confirmation == "spot_divergence"@ {
        "现货与合约方向分歧，主力结构确认度降低。"@
    } else {
        "当前主要是合约成交流冲击，现货确认不足，保持观察。"@
    }
}

/// The sentence explaining a regime.
pub fn market_structure_reason(regime_type: &str, confirmation_type: &str) -> (r: String)
    ensures
        r@ == reason_of(regime_type@, confirmation_type@),
{
    let g = chars_of(regime_type);
    if eq_str(&g, "main_force_long_build") {
        String::from_str("合约主动买入与现货方向确认，主力建多概率提高。")
    } else if eq_str(&g, "main_force_short_build") {
        String::from_str("合约主动卖出与现货方向确认，主力建空概率提高。")
    } else if eq_str(&g, "downside_absorption") {
        String::from_str("合约卖压出现时现货呈承接/吸收，暂按下方吸收观察。")
    } else if eq_str(&g, "upside_resistance") {
        String::from_str("合约买盘出现时现货呈压制/派发，暂按上方压制观察。")
    } else if eq_str(&g, "long_liquidation_cascade") || eq_str(&g, "contract_short_squeeze") {
        String::from_str("疑似清算驱动，极端冲击升高，但不直接确认主力建仓。")
    } else if eq_str(&chars_of(confirmation_type), "spot_divergence") {
        String::from_str("现货与合约方向分歧，主力结构确认度降低。")
    } else {
        String::from_str("当前主要是合约成交流冲击，现货确认不足，保持观察。")
    }
}

// ---------------------------------------------------------------------------
// Pipeline diagnostics
// ---------------------------------------------------------------------------

/// The data quality the detector assumes for a number of exchanges.
pub fn detector_data_quality(exchange_count: usize) -> (r: u8)
    ensures
        r == (if exchange_count == 0 {
            40u8
        } else if exchange_count == 1 {
            70u8
        } else {
            85u8
        }),
{
    if exchange_count == 0 {
        40
    } else if exchange_count == 1 {
        70
    } else {
        85
    }
}

pub open spec fn stale_reason(range: Option<Seq<char>>) -> Seq<char> {
    let l = lower(
        trim(
            match range {
                Some(r) => r,
                None => "24h"@,
            },
        ),
    );
    if l == "15m"@ {
        "older_than_15m"@
    } else if l == "1h"@ {
        "older_than_1h"@
    } else if l == "4h"@ {
        "older_than_4h"@
    } else if l == "24h"@ {
        "older_than_24h"@
    } else if l == "7d"@ {
        "older_than_7d"@
    } else {
        "older_than_requested_range"@
    }
}

/// Why an item is stale for a requested range (24h when none is named).
pub fn stale_reason_for_range(range_label: Option<&str>) -> (r: String)
    ensures
        r@ == stale_reason(crate::query_parse::opt_view(range_label)),
{
    let raw = match range_label {
        Some(r) => chars_of(r),
        None => chars_of("24h"),
    };
    let l = lower_chars(&trim_chars(&raw));
    if eq_str(&l, "15m") {
        String::from_str("older_than_15m")
    } else if eq_str(&l, "1h") {
        String::from_str("older_than_1h")
    } else if eq_str(&l, "4h") {
        String::from_str("older_than_4h")
    } else if eq_str(&l, "24h") {
        String::from_str("older_than_24h")
    } else if eq_str(&l, "7d") {
        String::from_str("older_than_7d")
    } else {
        String::from_str("older_than_requested_range")
    }
}

pub open spec fn max_opt(left: Option<i64>, right: Option<i64>) -> Option<i64> {
    match (left, right) {
        (Some(l), Some(r)) => Some(if l >= r { l } else { r }),
        (Some(x), None) | (None, Some(x)) => Some(x),
        (None, None) => None,
    }
}

/// The later of two optional times.
pub fn max_option(left: Option<i64>, right: Option<i64>) -> (r: Option<i64>)
    ensures
        r == max_opt(left, right),
{
    match (left, right) {
        (Some(l), Some(r)) => Some(if l >= r { l } else { r }),
        (Some(x), None) | (None, Some(x)) => Some(x),
        (None, None) => None,
    }
}

/// The latest of a venue's three last-trade times.
pub fn health_last_trade_at(
    last_trade_ts: Option<i64>,
    last_trade_message_at_ms: Option<i64>,
    last_parsed_trade_at_ms: Option<i64>,
) -> (r: Option<i64>)
    ensures
        r == max_opt(max_opt(last_trade_ts, last_trade_message_at_ms), last_parsed_trade_at_ms),
{
    max_option(max_option(last_trade_ts, last_trade_message_at_ms), last_parsed_trade_at_ms)
}

/// Whether the monitor is still warming up after boot.
pub struct ContractWhaleWarmupState {
    pub active: bool,
    pub until_ms: Option<i64>,
    pub remaining_ms: Option<i64>,
}

pub open spec fn sat_i64(v: int) -> int {
    if v < i64::MIN {
        i64::MIN as int
    } else if v > i64::MAX {
        i64::MAX as int
    } else {
        v
    }
}

/// The warm-up state at `now`: none unless the monitor is enabled, has a
/// positive warm-up and a boot time; then it lasts until boot + warm-up.
pub fn warmup_state(now: i64, enabled: bool, warmup_ms: i64, booted_at_ms: Option<i64>) -> (r:
    ContractWhaleWarmupState)
    ensures
        !enabled || warmup_ms <= 0 || booted_at_ms is None ==> !r.active && r.until_ms is None
            && r.remaining_ms is None,
        enabled && warmup_ms > 0 && booted_at_ms is Some ==> {
            let until = sat_i64(booted_at_ms->Some_0 + warmup_ms);
            let remaining = sat_i64(until - now);
            &&& r.until_ms == Some(until as i64)
            &&& r.active == (remaining > 0)
            &&& r.remaining_ms == if remaining > 0 {
                Some(remaining as i64)
            } else {
                None
            }
        },
{
    let none = ContractWhaleWarmupState { active: false, until_ms: None, remaining_ms: None };
    if !enabled || warmup_ms <= 0 {
        return none;
    }
    let booted = match booted_at_ms {
        Some(b) => b,
        None => return none,
    };
    let until: i64 = if booted > i64::MAX - warmup_ms {
        i64::MAX
    } else {
        booted + warmup_ms
    };
    let remaining: i64 = if now >= 0 {
        if until < i64::MIN + now {
            i64::MIN
        } else {
            until - now
        }
    } else {
        if until > i64::MAX + now {
            i64::MAX
        } else {
            until - now
        }
    };
    ContractWhaleWarmupState {
        active: remaining > 0,
        until_ms: Some(until),
        remaining_ms: if remaining > 0 {
            Some(remaining)
        } else {
            None
        },
    }
}

} // verus!
