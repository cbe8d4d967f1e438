//! The text of a toxic-flow alert: numbers grouped by thousands with their
//! trailing zeros dropped, and the message laid out line by line.
//!
//! Numbers come in as the decimal text of a fixed number of places (what
//! `{:.2}` or `{:.1}` writes); the library groups and trims that text.
use vstd::prelude::*;

use crate::alerts::ToxicDirection;
use crate::text::{
    append_chars, chars_of, nat_decimal, push_str, string_of, trim_end_matches,
    trim_end_matches_str, u64_decimal, upper, upper_chars,
};

verus! {

/// Position of the first `.` in `s`, or its length when there is none.
pub open spec fn dot_pos(s: Seq<char>) -> nat
    decreases s.len(),
{
    if s.len() == 0 {
        0
    } else if s[0] == '.' {
        0
    } else {
        1 + dot_pos(s.drop_first())
    }
}

/// What comes before the first `.`.
pub open spec fn integer_part(s: Seq<char>) -> Seq<char> {
    s.take(dot_pos(s) as int)
}

/// What comes between the first `.` and the next one (or the end); empty
/// when there is no `.`.
pub open spec fn fraction_part(s: Seq<char>) -> Seq<char> {
    if dot_pos(s) < s.len() {
        let rest = s.skip(dot_pos(s) as int + 1);
        rest.take(dot_pos(rest) as int)
    } else {
        Seq::empty()
    }
}

/// The first `i` characters of `s` with a comma before each character that
/// has a positive multiple of three characters after it.
pub open spec fn group_upto(s: Seq<char>, i: nat) -> Seq<char>
    decreases i,
{
    if i == 0 {
        Seq::empty()
    } else {
        let j = (i - 1) as nat;
        group_upto(s, j) + if j > 0 && (s.len() - j) % 3 == 0 {
            seq![',', s[j as int]]
        } else {
            seq![s[j as int]]
        }
    }
}

/// `s` with commas between groups of three, counted from the right.
pub open spec fn group_thousands(s: Seq<char>) -> Seq<char> {
    group_upto(s, s.len())
}

/// A decimal text with its integer part grouped by thousands and the
/// trailing zeros of its fraction dropped (with the point when nothing of
/// the fraction is left). A leading `-` is kept in front.
pub open spec fn with_commas(raw: Seq<char>) -> Seq<char> {
    let negative = raw.len() > 0 && raw[0] == '-';
    let digits = if negative {
        raw.skip(1)
    } else {
        raw
    };
    let sign = if negative {
        seq!['-']
    } else {
        Seq::<char>::empty()
    };
    let fraction = trim_end_matches(fraction_part(digits), seq!['0']);
    sign + group_thousands(integer_part(digits)) + if fraction.len() == 0 {
        Seq::<char>::empty()
    } else {
        seq!['.'] + fraction
    }
}

proof fn lemma_dot_pos(s: Seq<char>, i: int)
    requires
        0 <= i <= s.len(),
        forall|j: int| 0 <= j < i ==> s[j] != '.',
        i == s.len() || s[i] == '.',
    ensures
        dot_pos(s) == i,
    decreases i,
{
    if i > 0 {
        assert(s.len() > 0 && s[0] != '.');
        let t = s.drop_first();
        assert forall|j: int| 0 <= j < i - 1 implies t[j] != '.' by {
            assert(t[j] == s[j + 1]);
        }
        if i < s.len() {
            assert(t[i - 1] == s[i]);
        }
        lemma_dot_pos(t, i - 1);
    }
}

fn find_dot(s: &Vec<char>, from: usize) -> (r: usize)
    requires
        from <= s@.len(),
    ensures
        r == from + dot_pos(s@.skip(from as int)),
        r <= s@.len(),
{
    let mut i: usize = from;
    while i < s.len() && s[i] != '.'
        invariant
            from <= i <= s@.len(),
            forall|j: int| from <= j < i ==> s@[j] != '.',
        decreases s.len() - i,
    {
        i = i + 1;
    }
    proof {
        let t = s@.skip(from as int);
        assert forall|j: int| 0 <= j < i - from implies t[j] != '.' by {
            assert(t[j] == s@[from + j]);
        }
        if i < s@.len() {
            assert(t[i - from] == s@[i as int]);
        }
        lemma_dot_pos(t, i - from);
    }
    i
}

fn slice_chars(s: &Vec<char>, a: usize, b: usize) -> (r: Vec<char>)
    requires
        a <= b <= s@.len(),
    ensures
        r@ == s@.subrange(a as int, b as int),
{
    let mut r: Vec<char> = Vec::new();
    let mut i: usize = a;
    while i < b
        invariant
            a <= i <= b <= s@.len(),
            r@ == s@.subrange(a as int, i as int),
        decreases b - i,
    {
        r.push(s[i]);
        proof {
            assert(s@.subrange(a as int, i + 1) =~= s@.subrange(a as int, i as int).push(
                s@[i as int],
            ));
        }
        i = i + 1;
    }
    r
}

fn group_thousands_exec(s: &Vec<char>) -> (r: Vec<char>)
    ensures
        r@ == group_thousands(s@),
{
    let n = s.len();
    let mut out: Vec<char> = Vec::new();
    let mut i: usize = 0;
    while i < n
        invariant
            n == s@.len(),
            i <= n,
            out@ == group_upto(s@, i as nat),
        decreases n - i,
    {
        if i > 0 && (n - i) % 3 == 0 {
            out.push(',');
        }
        out.push(s[i]);
        proof {
            let j = i as nat;
            assert(group_upto(s@, (i + 1) as nat) == group_upto(s@, j) + if j > 0 && (s@.len()
                - j) % 3 == 0 {
                seq![',', s@[j as int]]
            } else {
                seq![s@[j as int]]
            });
        }
        i = i + 1;
    }
    out
}

/// Groups the integer part of a decimal text by thousands and drops the
/// trailing zeros of its fraction: `"-1234567.50"` becomes
/// `"-1,234,567.5"`, `"12.00"` becomes `"12"`.
pub fn format_with_commas(raw: &str) -> (r: String)
    ensures
        r@ == with_commas(raw@),
{
    let all = chars_of(raw);
    let negative = all.len() > 0 && all[0] == '-';
    let start: usize = if negative {
        1
    } else {
        0
    };
    let digits = slice_chars(&all, start, all.len());
    proof {
        assert(digits@ =~= if negative {
            raw@.skip(1)
        } else {
            raw@
        });
        assert(digits@.skip(0) =~= digits@);
    }
    let dot = find_dot(&digits, 0);
    let integer = slice_chars(&digits, 0, dot);
    let fraction: Vec<char> = if dot < digits.len() {
        let end = find_dot(&digits, dot + 1);
        proof {
            let rest = digits@.skip(dot + 1);
            assert(rest.take(dot_pos(rest) as int) =~= digits@.subrange(dot + 1, end as int));
        }
        slice_chars(&digits, dot + 1, end)
    } else {
        Vec::new()
    };
    proof {
        assert(integer@ =~= integer_part(digits@));
        assert(fraction@ =~= fraction_part(digits@));
    }
    let trimmed = trim_end_matches_str(&fraction, "0");
    proof {
        reveal_strlit("0");
        assert("0"@ =~= seq!['0']);
    }
    let mut out: Vec<char> = Vec::new();
    if negative {
        out.push('-');
    }
    let grouped = group_thousands_exec(&integer);
    append_chars(&mut out, &grouped);
    if trimmed.len() > 0 {
        out.push('.');
        let ghost before = out@;
        append_chars(&mut out, &trimmed);
        proof {
            assert(out@ =~= before + trimmed@);
        }
    }
    proof {
        let sign = if negative {
            seq!['-']
        } else {
            Seq::<char>::empty()
        };
        let tail = if trimmed@.len() == 0 {
            Seq::<char>::empty()
        } else {
            seq!['.'] + trimmed@
        };
        assert(out@ =~= sign + grouped@ + tail);
    }
    string_of(&out)
}

/// What an alert reports, its figures already written as decimal text:
/// volumes with two places, ratios with one, markouts signed with one.
pub struct AlertMessage {
    pub severity_label: String,
    pub direction: ToxicDirection,
    pub toxic_volume_btc: String,
    pub threshold_btc: String,
    pub window_ms: u64,
    /// The key of the leading venue, when one is known.
    pub leader_venue: Option<String>,
    pub aggressive_buy_btc: String,
    pub aggressive_sell_btc: String,
    /// Whether the net flow is negative, and its magnitude.
    pub net_flow_negative: bool,
    pub net_flow_abs_btc: String,
    pub imbalance_ratio_pct: String,
    pub toxic_ratio_pct: String,
    pub markout_1s_bps: Option<String>,
    pub markout_5s_bps: Option<String>,
    pub sweep_detected: bool,
    pub ask_thin: bool,
    pub bid_thin: bool,
    pub spread_widened: bool,
    pub cross_venue_confirmed: bool,
    pub active_venues: usize,
    pub reason_codes: Vec<String>,
}

pub open spec fn direction_heading(d: ToxicDirection) -> Seq<char> {
    match d {
        ToxicDirection::Buy => "BUY TOXIC"@,
        ToxicDirection::Sell => "SELL TOXIC"@,
        ToxicDirection::Neutral => "NEUTRAL"@,
    }
}

pub open spec fn bool_word(b: bool) -> Seq<char> {
    if b {
        "true"@
    } else {
        "false"@
    }
}

pub open spec fn markout_text(m: Option<String>) -> Seq<char> {
    match m {
        Some(t) => t@,
        None => "n/a"@,
    }
}

pub open spec fn leader_text(v: Option<String>) -> Seq<char> {
    match v {
        Some(k) => upper(k@),
        None => "unknown"@,
    }
}

/// The lines of `ls`, each ended by a newline.
pub open spec fn joined(ls: Seq<Seq<char>>) -> Seq<char>
    decreases ls.len(),
{
    if ls.len() == 0 {
        Seq::empty()
    } else {
        joined(ls.drop_last()) + ls.last() + "\n"@
    }
}

/// The lines of the message before the reasons.
pub open spec fn head_lines(m: AlertMessage) -> Seq<Seq<char>> {
    seq![
        "BTC Perp Toxic Flow Alert"@,
        Seq::empty(),
        "Severity: "@ + m.severity_label@,
        "Direction: "@ + direction_heading(m.direction),
        "Toxic Volume: "@ + with_commas(m.toxic_volume_btc@) + " BTC"@,
        "Threshold: "@ + with_commas(m.threshold_btc@) + " BTC"@,
        "Window: "@ + nat_decimal((m.window_ms / 1000) as nat) + "s"@,
        "Leader Venue: "@ + leader_text(m.leader_venue),
        Seq::empty(),
        "Flow:"@,
        "Aggressive Buy: "@ + with_commas(m.aggressive_buy_btc@) + " BTC"@,
        "Aggressive Sell: "@ + with_commas(m.aggressive_sell_btc@) + " BTC"@,
        "Net Flow: "@ + (if m.net_flow_negative {
            "-"@
        } else {
            "+"@
        }) + with_commas(m.net_flow_abs_btc@) + " BTC"@,
        "Imbalance Ratio: "@ + with_commas(m.imbalance_ratio_pct@) + "%"@,
        "Toxic Ratio: "@ + with_commas(m.toxic_ratio_pct@) + "%"@,
        Seq::empty(),
        "Markout:"@,
        "1s: "@ + markout_text(m.markout_1s_bps) + " bps"@,
        "5s: "@ + markout_text(m.markout_5s_bps) + " bps"@,
        Seq::empty(),
        "Liquidity:"@,
        "Sweep: "@ + bool_word(m.sweep_detected),
        "Ask Thin: "@ + bool_word(m.ask_thin),
        "Bid Thin: "@ + bool_word(m.bid_thin),
        "Spread Widened: "@ + bool_word(m.spread_widened),
        Seq::empty(),
        "Cross Venue:"@,
        "Confirmed: "@ + bool_word(m.cross_venue_confirmed),
        "Active Venues: "@ + nat_decimal(m.active_venues as nat),
        Seq::empty(),
        "Reason:"@
    ]
}

/// One line per reason, at most ten.
pub open spec fn reason_lines(reasons: Seq<String>) -> Seq<Seq<char>> {
    let n = if reasons.len() < 10 {
        reasons.len()
    } else {
        10
    };
    Seq::new(n, |i: int| "- "@ + reasons[i]@)
}

/// The whole alert text.
pub open spec fn alert_message_text(m: AlertMessage) -> Seq<char> {
    joined(head_lines(m) + reason_lines(m.reason_codes@))
}

proof fn lemma_joined_push(ls: Seq<Seq<char>>, l: Seq<char>)
    ensures
        joined(ls.push(l)) == joined(ls) + l + "\n"@,
{
    assert(ls.push(l).drop_last() =~= ls);
}

fn add_line(out: &mut Vec<char>, lines: Ghost<Seq<Seq<char>>>, line: &Vec<char>) -> (r: Ghost<
    Seq<Seq<char>>,
>)
    requires
        old(out)@ == joined(lines@),
    ensures
        r@ == lines@.push(line@),
        final(out)@ == joined(r@),
{
    append_chars(out, line);
    out.push('\n');
    proof {
        reveal_strlit("\n");
        lemma_joined_push(lines@, line@);
        assert(out@ =~= joined(lines@) + line@ + "\n"@);
    }
    Ghost(lines@.push(line@))
}

fn text_line(a: &str, b: &Vec<char>, c: &str) -> (r: Vec<char>)
    ensures
        r@ == a@ + b@ + c@,
{
    let mut v = chars_of(a);
    append_chars(&mut v, b);
    push_str(&mut v, c);
    v
}

fn lit_line(a: &str) -> (r: Vec<char>)
    ensures
        r@ == a@,
{
    chars_of(a)
}

fn bool_text(b: bool) -> (r: &'static str)
    ensures
        r@ == bool_word(b),
{
    if b {
        "true"
    } else {
        "false"
    }
}

fn commas_of(raw: &String) -> (r: Vec<char>)
    ensures
        r@ == with_commas(raw@),
{
    let s = format_with_commas(raw.as_str());
    chars_of(s.as_str())
}

fn markout_chars(m: &Option<String>) -> (r: Vec<char>)
    ensures
        r@ == markout_text(*m),
{
    match m {
        Some(t) => chars_of(t.as_str()),
        None => chars_of("n/a"),
    }
}

/// The text of an alert, line by line: the heading, severity, direction,
/// volumes, window and leading venue; the flow; the markouts; the
/// liquidity flags; the venues; and up to ten reasons.
#[verifier::rlimit(60)]
pub fn format_alert_message(m: &AlertMessage) -> (r: String)
    ensures
        r@ == alert_message_text(*m),
{
    let mut out: Vec<char> = Vec::new();
    let g: Ghost<Seq<Seq<char>>> = Ghost(Seq::empty());
    let e: Vec<char> = Vec::new();
    let g = add_line(&mut out, g, &lit_line("BTC Perp Toxic Flow Alert"));
    let g = add_line(&mut out, g, &e);
    let g = add_line(&mut out, g, &text_line("Severity: ", &chars_of(m.severity_label.as_str()), ""));
    let dir: &str = match m.direction {
        ToxicDirection::Buy => "BUY TOXIC",
        ToxicDirection::Sell => "SELL TOXIC",
        ToxicDirection::Neutral => "NEUTRAL",
    };
    let g = add_line(&mut out, g, &text_line("Direction: ", &chars_of(dir), ""));
    let g = add_line(&mut out, g, &text_line("Toxic Volume: ", &commas_of(&m.toxic_volume_btc), " BTC"));
    let g = add_line(&mut out, g, &text_line("Threshold: ", &commas_of(&m.threshold_btc), " BTC"));
    let g = add_line(&mut out, g, &text_line("Window: ", &u64_decimal(m.window_ms / 1000), "s"));
    let venue: Vec<char> = match &m.leader_venue {
        Some(k) => upper_chars(&chars_of(k.as_str())),
        None => chars_of("unknown"),
    };
    let g = add_line(&mut out, g, &text_line("Leader Venue: ", &venue, ""));
    let g = add_line(&mut out, g, &e);
    let g = add_line(&mut out, g, &lit_line("Flow:"));
    let g = add_line(&mut out, g, &text_line("Aggressive Buy: ", &commas_of(&m.aggressive_buy_btc), " BTC"));
    let g = add_line(&mut out, g, &text_line("Aggressive Sell: ", &commas_of(&m.aggressive_sell_btc), " BTC"));
    let mut net = chars_of(if m.net_flow_negative {
        "-"
    } else {
        "+"
    });
    append_chars(&mut net, &commas_of(&m.net_flow_abs_btc));
    let g = add_line(&mut out, g, &text_line("Net Flow: ", &net, " BTC"));
    let g = add_line(&mut out, g, &text_line("Imbalance Ratio: ", &commas_of(&m.imbalance_ratio_pct), "%"));
    let g = add_line(&mut out, g, &text_line("Toxic Ratio: ", &commas_of(&m.toxic_ratio_pct), "%"));
    let g = add_line(&mut out, g, &e);
    let g = add_line(&mut out, g, &lit_line("Markout:"));
    let g = add_line(&mut out, g, &text_line("1s: ", &markout_chars(&m.markout_1s_bps), " bps"));
    let g = add_line(&mut out, g, &text_line("5s: ", &markout_chars(&m.markout_5s_bps), " bps"));
    let g = add_line(&mut out, g, &e);
    let g = add_line(&mut out, g, &lit_line("Liquidity:"));
    let g = add_line(&mut out, g, &text_line("Sweep: ", &chars_of(bool_text(m.sweep_detected)), ""));
    let g = add_line(&mut out, g, &text_line("Ask Thin: ", &chars_of(bool_text(m.ask_thin)), ""));
    let g = add_line(&mut out, g, &text_line("Bid Thin: ", &chars_of(bool_text(m.bid_thin)), ""));
    let g = add_line(&mut out, g, &text_line("Spread Widened: ", &chars_of(bool_text(m.spread_widened)), ""));
    let g = add_line(&mut out, g, &e);
    let g = add_line(&mut out, g, &lit_line("Cross Venue:"));
    let g = add_line(&mut out, g, &text_line("Confirmed: ", &chars_of(bool_text(m.cross_venue_confirmed)), ""));
    let g = add_line(&mut out, g, &text_line("Active Venues: ", &u64_decimal(m.active_venues as u64), ""));
    let g = add_line(&mut out, g, &e);
    let g = add_line(&mut out, g, &lit_line("Reason:"));
    proof {
        reveal_strlit("");
        assert(""@ =~= Seq::<char>::empty());
        assert(g@ =~~= head_lines(*m));
    }
    let n: usize = if m.reason_codes.len() < 10 {
        m.reason_codes.len()
    } else {
        10
    };
    let mut g = g;
    let mut i: usize = 0;
    while i < n
        invariant
            n <= m.reason_codes@.len(),
            n == if m.reason_codes@.len() < 10 {
                m.reason_codes@.len()
            } else {
                10
            },
            i <= n,
            g@ == head_lines(*m) + reason_lines(m.reason_codes@).take(i as int),
            out@ == joined(g@),
        decreases n - i,
    {
        let l = text_line("- ", &chars_of(m.reason_codes[i].as_str()), "");
        g = add_line(&mut out, g, &l);
        proof {
            reveal_strlit("");
            assert(l@ =~= "- "@ + m.reason_codes@[i as int]@);
            assert(reason_lines(m.reason_codes@).take(i + 1) =~= reason_lines(
                m.reason_codes@,
            ).take(i as int).push(l@));
            assert(g@ =~= head_lines(*m) + reason_lines(m.reason_codes@).take(i + 1));
        }
        i = i + 1;
    }
    proof {
        assert(reason_lines(m.reason_codes@).take(n as int) =~= reason_lines(m.reason_codes@));
    }
    string_of(&out)
}

} // verus!
