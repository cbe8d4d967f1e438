//! Discord alert routing rules that do not depend on floating-point
//! measurements: alert families, push keys, severity and behaviour lanes,
//! direction and structure labels, environment flag parsing and status
//! bookkeeping.
use vstd::prelude::*;

use crate::auto_tracker::{merged_status, DiscordAlertPublicStatus, DiscordAutoPushTracker};
use crate::text::{
    append_chars, chars_of, contains, contains_str, eq_ignore_case_str, eq_str, lower, lower_chars,
    parse_u64, parse_u8, parse_unsigned, push_str, string_of, trim, trim_chars, upper, upper_chars,
};

verus! {

/// How an alert alert filter is being evaluated.
#[derive(Clone, Copy, PartialEq, Eq, Structural)]
pub enum DiscordAlertMode {
    Manual,
    Preview,
    Auto,
}

/// Direction of a signal as shown in Discord.
#[derive(Clone, Copy, PartialEq, Eq, Structural)]
pub enum NormalizedDiscordDirection {
    Bullish,
    Bearish,
    Neutral,
}

/// The non-numeric fields of a Discord notification request: the keys,
/// labels and integer scores that routing reads.
pub struct DiscordRequestFields {
    pub server_evidence_verified: bool,
    pub alert_family: Option<String>,
    pub signal_id: Option<String>,
    pub id: Option<String>,
    pub dedupe_key: Option<String>,
    pub exchange: Option<String>,
    pub symbol: Option<String>,
    pub signal_type: Option<String>,
    pub level: Option<String>,
    pub side: Option<String>,
    pub score: Option<u8>,
    pub reason: Option<String>,
    pub impact: Option<String>,
    pub impact_level: Option<String>,
    pub time: Option<String>,
    pub price_range: Option<String>,
    pub candidate_type: Option<String>,
    pub explain_tags: Option<Vec<String>>,
    pub perp_score: Option<u8>,
    pub perp_candidate_type: Option<String>,
    pub final_candidate_type: Option<String>,
    pub metrics_direction: Option<String>,
    pub advanced_score: Option<u8>,
    pub advanced_candidate_type: Option<String>,
    pub main_force_score: Option<u8>,
    pub extreme_impact_score: Option<u8>,
    pub structure_bias: Option<i16>,
    pub market_structure_severity: Option<String>,
    pub behavior_type: Option<String>,
    pub behavior_state: Option<String>,
    pub behavior_confidence: Option<u8>,
    pub behavior_main_force_confirmed: Option<bool>,
    pub regime_type: Option<String>,
    pub spot_score: Option<u8>,
    pub contract_score: Option<u8>,
    pub cross_confirm_score: Option<u8>,
    pub main_force_confirmed: Option<bool>,
    pub signal_agreement: Option<u8>,
    pub source_coverage: Option<u8>,
    pub oi_score: Option<u8>,
    pub liquidation_score: Option<u8>,
    pub test: Option<bool>,
}

// ---------------------------------------------------------------------------
// Spec helpers
// ---------------------------------------------------------------------------

pub open spec fn opt_string_view(o: Option<String>) -> Option<Seq<char>> {
    match o {
        Some(s) => Some(s@),
        None => None,
    }
}

/// `o.as_deref().unwrap_or(default)`.
pub open spec fn or_default(o: Option<String>, default: Seq<char>) -> Seq<char> {
    match o {
        Some(s) => s@,
        None => default,
    }
}

/// `o.map(str::trim).filter(|v| !v.is_empty())`.
pub open spec fn trimmed_nonempty(o: Option<Seq<char>>) -> Option<Seq<char>> {
    match o {
        Some(s) => if trim(s).len() > 0 {
            Some(trim(s))
        } else {
            None
        },
        None => None,
    }
}

pub open spec fn first_some(a: Option<Seq<char>>, b: Option<Seq<char>>) -> Option<Seq<char>> {
    match a {
        Some(x) => Some(x),
        None => b,
    }
}

// ---------------------------------------------------------------------------
// Small executable helpers
// ---------------------------------------------------------------------------

/// The characters of an optional string.
pub fn opt_chars(o: &Option<String>) -> (r: Option<Vec<char>>)
    ensures
        match r {
            Some(v) => opt_string_view(*o) == Some(v@),
            None => o is None,
        },
{
    match o {
        Some(s) => Some(chars_of(s.as_str())),
        None => None,
    }
}

/// The characters of an optional string slice.
pub fn opt_str_chars(o: Option<&str>) -> (r: Option<Vec<char>>)
    ensures
        match r {
            Some(v) => o matches Some(s) && s@ == v@,
            None => o is None,
        },
{
    match o {
        Some(s) => Some(chars_of(s)),
        None => None,
    }
}

/// `trim` when the trimmed text is non-empty.
pub fn trimmed_nonempty_exec(o: Option<Vec<char>>) -> (r: Option<Vec<char>>)
    ensures
        match r {
            Some(v) => trimmed_nonempty(match o { Some(x) => Some(x@), None => None }) == Some(v@),
            None => trimmed_nonempty(match o { Some(x) => Some(x@), None => None }) is None,
        },
{
    match o {
        Some(v) => {
            let t = trim_chars(&v);
            if t.len() > 0 {
                Some(t)
            } else {
                None
            }
        },
        None => None,
    }
}

// ---------------------------------------------------------------------------
// Direction and labels
// ---------------------------------------------------------------------------

pub open spec fn direction_of(raw: Option<Seq<char>>) -> NormalizedDiscordDirection {
    let v = lower(match raw {
        Some(s) => s,
        None => Seq::empty(),
    });
    if contains(v, "bid"@) || contains(v, "buy"@) || contains(v, "long"@) || contains(v, "bull"@) {
        NormalizedDiscordDirection::Bullish
    } else if contains(v, "ask"@) || contains(v, "sell"@) || contains(v, "short"@) || contains(
        v,
        "bear"@,
    ) {
        NormalizedDiscordDirection::Bearish
    } else {
        NormalizedDiscordDirection::Neutral
    }
}

/// Reads a direction out of free text: bid/buy/long/bull words mean
/// bullish, then ask/sell/short/bear words mean bearish, else neutral.
pub fn normalize_signal_direction(raw: Option<&str>) -> (r: NormalizedDiscordDirection)
    ensures
        r == direction_of(match raw { Some(s) => Some(s@), None => None }),
{
    let v = match raw {
        Some(s) => lower_chars(&chars_of(s)),
        None => Vec::new(),
    };
    proof {
        if raw is None {
            assert(v@ =~= lower(Seq::<char>::empty()));
        }
    }
    if contains_str(&v, "bid") || contains_str(&v, "buy") || contains_str(&v, "long")
        || contains_str(&v, "bull") {
        NormalizedDiscordDirection::Bullish
    } else if contains_str(&v, "ask") || contains_str(&v, "sell") || contains_str(&v, "short")
        || contains_str(&v, "bear") {
        NormalizedDiscordDirection::Bearish
    } else {
        NormalizedDiscordDirection::Neutral
    }
}

/// Embed colour of a direction: green, red or grey.
pub fn discord_embed_color_from_direction(direction: NormalizedDiscordDirection) -> (r: u32)
    ensures
        r == match direction {
            NormalizedDiscordDirection::Bullish => 5_763_719u32,
            NormalizedDiscordDirection::Bearish => 15_548_997u32,
            NormalizedDiscordDirection::Neutral => 9_807_270u32,
        },
{
    match direction {
        NormalizedDiscordDirection::Bullish => 5_763_719,
        NormalizedDiscordDirection::Bearish => 15_548_997,
        NormalizedDiscordDirection::Neutral => 9_807_270,
    }
}

/// Emoji of a direction.
pub fn discord_direction_emoji(direction: NormalizedDiscordDirection) -> (r: &'static str)
    ensures
        r@ == match direction {
            NormalizedDiscordDirection::Bullish => "🟢"@,
            NormalizedDiscordDirection::Bearish => "🔴"@,
            NormalizedDiscordDirection::Neutral => "🟡"@,
        },
{
    match direction {
        NormalizedDiscordDirection::Bullish => "🟢",
        NormalizedDiscordDirection::Bearish => "🔴",
        NormalizedDiscordDirection::Neutral => "🟡",
    }
}

/// Short-term pressure label of a direction.
pub fn short_pressure_label(direction: NormalizedDiscordDirection) -> (r: &'static str)
    ensures
        r@ == match direction {
            NormalizedDiscordDirection::Bullish => "偏多"@,
            NormalizedDiscordDirection::Bearish => "偏空"@,
            NormalizedDiscordDirection::Neutral => "中性 / 不明确"@,
        },
{
    match direction {
        NormalizedDiscordDirection::Bullish => "偏多",
        NormalizedDiscordDirection::Bearish => "偏空",
        NormalizedDiscordDirection::Neutral => "中性 / 不明确",
    }
}

/// Direction implied by a structure bias: at least +15 is bullish, at
/// most -15 bearish.
pub fn market_structure_direction_from_bias(structure_bias: i16) -> (r: NormalizedDiscordDirection)
    ensures
        r == if structure_bias >= 15 {
            NormalizedDiscordDirection::Bullish
        } else if structure_bias <= -15 {
            NormalizedDiscordDirection::Bearish
        } else {
            NormalizedDiscordDirection::Neutral
        },
{
    if structure_bias >= 15 {
        NormalizedDiscordDirection::Bullish
    } else if structure_bias <= -15 {
        NormalizedDiscordDirection::Bearish
    } else {
        NormalizedDiscordDirection::Neutral
    }
}

/// Label of a structure bias, on the same thresholds as its direction.
pub fn structure_bias_label(structure_bias: i16) -> (r: &'static str)
    ensures
        r@ == if structure_bias >= 15 {
            "偏多"@
        } else if structure_bias <= -15 {
            "偏空"@
        } else {
            "中性"@
        },
{
    if structure_bias >= 15 {
        "偏多"
    } else if structure_bias <= -15 {
        "偏空"
    } else {
        "中性"
    }
}

pub open spec fn regime_label(regime_type: Seq<char>) -> Seq<char> {
    if regime_type == "main_force_long_build"@ {
        "主力建多"@
    } else if regime_type == "main_force_short_build"@ {
        "主力建空"@
    } else if regime_type == "contract_flow_shock"@ {
        "合约冲击"@
    } else if regime_type == "spot_accumulation"@ {
        "现货吸筹"@
    } else if regime_type == "spot_distribution"@ {
        "现货派发"@
    } else if regime_type == "contract_short_squeeze"@ {
        "空头挤压"@
    } else if regime_type == "long_liquidation_cascade"@ {
        "多头清算瀑布"@
    } else if regime_type == "downside_absorption"@ {
        "下方吸收"@
    } else if regime_type == "upside_resistance"@ {
        "上方压制"@
    } else if regime_type == "range_rotation"@ {
        "高换手震荡"@
    } else {
        "结构未明"@
    }
}

/// Chinese label of a market-structure regime.
pub fn market_structure_regime_label(regime_type: &str) -> (r: &'static str)
    ensures
        r@ == regime_label(regime_type@),
{
    let v = chars_of(regime_type);
    if eq_str(&v, "main_force_long_build") {
        "主力建多"
    } else if eq_str(&v, "main_force_short_build") {
        "主力建空"
    } else if eq_str(&v, "contract_flow_shock") {
        "合约冲击"
    } else if eq_str(&v, "spot_accumulation") {
        "现货吸筹"
    } else if eq_str(&v, "spot_distribution") {
        "现货派发"
    } else if eq_str(&v, "contract_short_squeeze") {
        "空头挤压"
    } else if eq_str(&v, "long_liquidation_cascade") {
        "多头清算瀑布"
    } else if eq_str(&v, "downside_absorption") {
        "下方吸收"
    } else if eq_str(&v, "upside_resistance") {
        "上方压制"
    } else if eq_str(&v, "range_rotation") {
        "高换手震荡"
    } else {
        "结构未明"
    }
}

pub open spec fn score_severity(score: u8) -> Seq<char> {
    if score >= 90 {
        "Extreme"@
    } else if score >= 75 {
        "Major"@
    } else if score >= 60 {
        "Confirmed"@
    } else if score >= 40 {
        "Watch"@
    } else {
        "Calm"@
    }
}

pub open spec fn severity_label_of(fields: DiscordRequestFields) -> Seq<char> {
    match fields.market_structure_severity {
        Some(s) => if trim(s@).len() > 0 {
            s@
        } else {
            score_severity(or_zero(fields.main_force_score))
        },
        None => score_severity(or_zero(fields.main_force_score)),
    }
}

pub open spec fn or_zero(o: Option<u8>) -> u8 {
    match o {
        Some(v) => v,
        None => 0,
    }
}

/// The severity shown for a market-structure alert: the given severity
/// when it is not blank, else a band of the main-force score.
pub fn market_structure_severity_label(fields: &DiscordRequestFields) -> (r: String)
    ensures
        r@ == severity_label_of(*fields),
{
    if let Some(s) = &fields.market_structure_severity {
        let t = trim_chars(&chars_of(s.as_str()));
        if t.len() > 0 {
            return s.clone();
        }
    }
    let score = match fields.main_force_score {
        Some(v) => v,
        None => 0,
    };
    let label = if score >= 90 {
        "Extreme"
    } else if score >= 75 {
        "Major"
    } else if score >= 60 {
        "Confirmed"
    } else if score >= 40 {
        "Watch"
    } else {
        "Calm"
    };
    String::from_str(label)
}

// ---------------------------------------------------------------------------
// Alert families and keys
// ---------------------------------------------------------------------------

/// The alert family of a request: `MARKET_STRUCTURE` when the requested
/// family (default `short_toxic_order`) is `market_structure` ignoring case
/// and surrounding space, else `SHORT_TOXIC`.
pub open spec fn family_of(fields: DiscordRequestFields) -> Seq<char> {
    if lower(trim(or_default(fields.alert_family, "short_toxic_order"@))) == "market_structure"@ {
        "MARKET_STRUCTURE"@
    } else {
        "SHORT_TOXIC"@
    }
}

pub fn alert_family(fields: &DiscordRequestFields) -> (r: &'static str)
    ensures
        r@ == family_of(*fields),
{
    let raw = match &fields.alert_family {
        Some(s) => chars_of(s.as_str()),
        None => chars_of("short_toxic_order"),
    };
    let v = lower_chars(&trim_chars(&raw));
    if eq_str(&v, "market_structure") {
        "MARKET_STRUCTURE"
    } else {
        "SHORT_TOXIC"
    }
}

pub open spec fn family_label_of(fields: DiscordRequestFields) -> Seq<char> {
    if family_of(fields) == "MARKET_STRUCTURE"@ {
        "market_structure"@
    } else {
        "short_toxic_order"@
    }
}

/// The public family name of a request.
pub fn alert_family_label(fields: &DiscordRequestFields) -> (r: &'static str)
    ensures
        r@ == family_label_of(*fields),
{
    let family = alert_family(fields);
    let f = chars_of(family);
    if eq_str(&f, "MARKET_STRUCTURE") {
        "market_structure"
    } else {
        "short_toxic_order"
    }
}

/// `{family}_{suffix}`, the environment key of a family-specific setting.
pub fn family_specific_key(family: &str, suffix: &str) -> (r: String)
    ensures
        r@ == family@ + "_"@ + suffix@,
{
    let mut v = chars_of(family);
    push_str(&mut v, "_");
    push_str(&mut v, suffix);
    string_of(&v)
}

pub open spec fn dedupe_key_of(fields: DiscordRequestFields) -> Option<Seq<char>> {
    trimmed_nonempty(
        first_some(
            opt_string_view(fields.dedupe_key),
            first_some(opt_string_view(fields.signal_id), opt_string_view(fields.id)),
        ),
    )
}

/// The deduplication key of a push: the first given of `dedupe_key`,
/// `signal_id`, `id`, trimmed, unless blank.
pub fn push_dedupe_key(fields: &DiscordRequestFields) -> (r: Option<String>)
    ensures
        opt_string_view(r) == dedupe_key_of(*fields),
{
    let chosen = match &fields.dedupe_key {
        Some(s) => Some(chars_of(s.as_str())),
        None => match &fields.signal_id {
            Some(s) => Some(chars_of(s.as_str())),
            None => match &fields.id {
                Some(s) => Some(chars_of(s.as_str())),
                None => None,
            },
        },
    };
    match trimmed_nonempty_exec(chosen) {
        Some(v) => Some(string_of(&v)),
        None => None,
    }
}

pub open spec fn manual_key_of(fields: DiscordRequestFields) -> Option<Seq<char>> {
    if !fields.server_evidence_verified {
        None
    } else {
        match trimmed_nonempty(opt_string_view(fields.signal_id)) {
            Some(id) => Some("manual:"@ + family_label_of(fields) + ":"@ + id),
            None => None,
        }
    }
}

/// The push key of a manual push: only for server-verified evidence, built
/// from the family and the canonical signal id; client dedupe keys and
/// legacy ids are ignored.
pub fn canonical_manual_push_key(fields: &DiscordRequestFields) -> (r: Option<String>)
    ensures
        opt_string_view(r) == manual_key_of(*fields),
{
    if !fields.server_evidence_verified {
        return None;
    }
    match trimmed_nonempty_exec(opt_chars(&fields.signal_id)) {
        Some(id) => {
            let mut v = chars_of("manual:");
            push_str(&mut v, alert_family_label(fields));
            push_str(&mut v, ":");
            append_chars(&mut v, &id);
            Some(string_of(&v))
        },
        None => None,
    }
}

// ---------------------------------------------------------------------------
// Severity and behaviour lanes
// ---------------------------------------------------------------------------

pub open spec fn severity_allowed(level: Option<Seq<char>>) -> bool {
    let v = lower(trim(match level {
        Some(s) => s,
        None => Seq::empty(),
    }));
    v == "high"@ || v == "critical"@ || v == "a"@ || v == "s"@
}

/// Only high-risk levels (high, critical, A, S; any case) may be pushed.
pub fn severity_allows(level: Option<&str>) -> (r: bool)
    ensures
        r == severity_allowed(match level { Some(s) => Some(s@), None => None }),
{
    let raw = match level {
        Some(s) => chars_of(s),
        None => Vec::new(),
    };
    proof {
        if level is None {
            assert(raw@ =~= Seq::<char>::empty());
        }
    }
    let v = lower_chars(&trim_chars(&raw));
    eq_str(&v, "high") || eq_str(&v, "critical") || eq_str(&v, "a") || eq_str(&v, "s")
}

/// A request carries the behaviour lane when any of its behaviour fields
/// is given.
pub fn behavior_lane_is_present(fields: &DiscordRequestFields) -> (r: bool)
    ensures
        r == (fields.behavior_type is Some || fields.behavior_state is Some
            || fields.behavior_main_force_confirmed is Some),
{
    fields.behavior_type.is_some() || fields.behavior_state.is_some()
        || fields.behavior_main_force_confirmed.is_some()
}

pub open spec fn behavior_allows(fields: DiscordRequestFields) -> bool {
    let behavior_type = lower(trim(or_default(fields.behavior_type, Seq::empty())));
    if behavior_type == "liquidation_sweep"@ {
        true
    } else {
        &&& fields.behavior_state matches Some(st) && lower(st@) == lower("confirmed"@)
        &&& fields.behavior_main_force_confirmed == Some(true)
        &&& or_zero(fields.behavior_confidence) >= 80
        &&& behavior_type != "insufficient_evidence"@
    }
}

/// The behaviour lane lets a push through when it is a liquidation sweep,
/// or a confirmed main-force behaviour with confidence of at least 80 that
/// is not "insufficient_evidence".
pub fn behavior_lane_allows_push(fields: &DiscordRequestFields) -> (r: bool)
    ensures
        r == behavior_allows(*fields),
{
    let raw = match &fields.behavior_type {
        Some(s) => chars_of(s.as_str()),
        None => Vec::new(),
    };
    proof {
        if fields.behavior_type is None {
            assert(raw@ =~= Seq::<char>::empty());
        }
    }
    let behavior_type = lower_chars(&trim_chars(&raw));
    if eq_str(&behavior_type, "liquidation_sweep") {
        return true;
    }
    let state_confirmed = match &fields.behavior_state {
        Some(s) => eq_ignore_case_str(&chars_of(s.as_str()), "confirmed"),
        None => false,
    };
    let confirmed = match fields.behavior_main_force_confirmed {
        Some(b) => b,
        None => false,
    };
    let confidence = match fields.behavior_confidence {
        Some(c) => c,
        None => 0,
    };
    state_confirmed && confirmed && confidence >= 80 && !eq_str(
        &behavior_type,
        "insufficient_evidence",
    )
}

pub open spec fn impact_level_of(fields: DiscordRequestFields) -> Option<Seq<char>> {
    let level = upper(
        trim(
            match fields.impact_level {
                Some(s) => s@,
                None => or_default(fields.level, Seq::empty()),
            },
        ),
    );
    if level == "S"@ || level == "A"@ || level == "B"@ {
        Some(level)
    } else {
        None
    }
}

/// The impact level (S, A or B) of a market-structure request, read from
/// `impact_level`, else from `level`.
pub fn market_structure_impact_level(fields: &DiscordRequestFields) -> (r: Option<&'static str>)
    ensures
        match r {
            Some(x) => impact_level_of(*fields) == Some(x@),
            None => impact_level_of(*fields) is None,
        },
{
    let raw = match &fields.impact_level {
        Some(s) => chars_of(s.as_str()),
        None => match &fields.level {
            Some(s) => chars_of(s.as_str()),
            None => Vec::new(),
        },
    };
    proof {
        if fields.impact_level is None && fields.level is None {
            assert(raw@ =~= Seq::<char>::empty());
        }
    }
    let level = upper_chars(&trim_chars(&raw));
    if eq_str(&level, "S") {
        Some("S")
    } else if eq_str(&level, "A") {
        Some("A")
    } else if eq_str(&level, "B") {
        Some("B")
    } else {
        None
    }
}

/// The score an impact level stands for: S 95, A 85, B 80.
pub fn market_structure_impact_level_score(fields: &DiscordRequestFields) -> (r: Option<u8>)
    ensures
        r == match impact_level_of(*fields) {
            Some(l) => if l == "S"@ {
                Some(95u8)
            } else if l == "A"@ {
                Some(85u8)
            } else {
                Some(80u8)
            },
            None => None,
        },
{
    match market_structure_impact_level(fields) {
        Some(l) => {
            let v = chars_of(l);
            if eq_str(&v, "S") {
                Some(95)
            } else if eq_str(&v, "A") {
                Some(85)
            } else {
                Some(80)
            }
        },
        None => None,
    }
}

pub open spec fn type_label_of(fields: DiscordRequestFields) -> Seq<char> {
    let v = lower(
        match fields.candidate_type {
            Some(s) => s@,
            None => or_default(fields.signal_type, Seq::empty()),
        },
    );
    if contains(v, "spoof"@) {
        "虚假挂单 / 撤单诱导"@
    } else if contains(v, "liquidity"@) && contains(v, "pull"@) {
        "短线流动性撤离"@
    } else if contains(v, "thin"@) || contains(v, "gap"@) {
        "短线流动性缺口"@
    } else if contains(v, "stop"@) {
        "扫损 / Stop Hunt"@
    } else if contains(v, "breakout"@) {
        "假突破"@
    } else {
        "短线有毒流"@
    }
}

/// The short-toxic type label, from the candidate type (else the signal
/// type).
pub fn short_toxic_type_label(fields: &DiscordRequestFields, _direction: NormalizedDiscordDirection) -> (r: &'static str)
    ensures
        r@ == type_label_of(*fields),
{
    let raw = match &fields.candidate_type {
        Some(s) => chars_of(s.as_str()),
        None => match &fields.signal_type {
            Some(s) => chars_of(s.as_str()),
            None => Vec::new(),
        },
    };
    proof {
        if fields.candidate_type is None && fields.signal_type is None {
            assert(raw@ =~= Seq::<char>::empty());
        }
    }
    let v = lower_chars(&raw);
    if contains_str(&v, "spoof") {
        "虚假挂单 / 撤单诱导"
    } else if contains_str(&v, "liquidity") && contains_str(&v, "pull") {
        "短线流动性撤离"
    } else if contains_str(&v, "thin") || contains_str(&v, "gap") {
        "短线流动性缺口"
    } else if contains_str(&v, "stop") {
        "扫损 / Stop Hunt"
    } else if contains_str(&v, "breakout") {
        "假突破"
    } else {
        "短线有毒流"
    }
}

// ---------------------------------------------------------------------------
// Delivery and status bookkeeping
// ---------------------------------------------------------------------------

/// A webhook is only contacted for an allowed, non-test request.
pub fn webhook_delivery_permitted(allowed: bool, test: Option<bool>) -> (r: bool)
    ensures
        r == (allowed && test != Some(true)),
{
    allowed && !matches!(test, Some(true))
}

pub open spec fn is_rejection_reason(reason: Seq<char>) -> bool {
    reason == "score_below_threshold"@ || reason == "confidence_below_threshold"@ || reason
        == "data_quality_below_threshold"@ || reason == "non_high_risk"@
}

pub open spec fn status_word(allowed: bool, reason: Seq<char>) -> Seq<char> {
    if allowed {
        "eligible"@
    } else if is_rejection_reason(reason) {
        "rejected"@
    } else {
        "skipped"@
    }
}

/// The public word for a alert filter outcome: eligible, rejected by a threshold or
/// risk level, or skipped for any other reason.
pub fn alert_status_from_reason(allowed: bool, reason: &str) -> (r: &'static str)
    ensures
        r@ == status_word(allowed, reason@),
{
    if allowed {
        return "eligible";
    }
    let v = chars_of(reason);
    if eq_str(&v, "score_below_threshold") || eq_str(&v, "confidence_below_threshold") || eq_str(
        &v,
        "data_quality_below_threshold",
    ) || eq_str(&v, "non_high_risk") {
        "rejected"
    } else {
        "skipped"
    }
}

/// The public status of a alert filter outcome.
pub fn status_from_decision(allowed: bool, reason: &str, auto_sent: bool, sent_at: Option<String>) -> (r:
    DiscordAlertPublicStatus)
    ensures
        r.auto_eligible == allowed,
        r.auto_sent == auto_sent,
        r.last_decision@ == if auto_sent {
            "sent"@
        } else {
            status_word(allowed, reason@)
        },
        r.reason@ == reason@,
        r.sent_at == sent_at,
        r.manual_sent_at is None,
{
    DiscordAlertPublicStatus {
        auto_eligible: allowed,
        auto_sent,
        last_decision: if auto_sent {
            String::from_str("sent")
        } else {
            String::from_str(alert_status_from_reason(allowed, reason))
        },
        reason: String::from_str(reason),
        sent_at,
        manual_sent_at: None,
    }
}

/// The status recorded for a push outcome: a manual send (one with a send
/// time that was not auto-sent) moves the time to `manual_sent_at` and reads
/// as "sent" / "manual_sent".
pub open spec fn recorded_status(
    s: DiscordAlertPublicStatus,
    allowed: bool,
    reason: Seq<char>,
    auto_sent: bool,
    sent_at: Option<String>,
) -> bool {
    &&& s.auto_eligible == allowed
    &&& s.auto_sent == auto_sent
    &&& if !auto_sent && sent_at is Some {
        &&& s.manual_sent_at == sent_at
        &&& s.sent_at is None
        &&& s.last_decision@ == "sent"@
        &&& s.reason@ == "manual_sent"@
    } else {
        &&& s.manual_sent_at is None
        &&& s.sent_at == sent_at
        &&& s.last_decision@ == if auto_sent {
            "sent"@
        } else {
            status_word(allowed, reason)
        }
        &&& s.reason@ == reason
    }
}

/// The tracker after a push outcome was recorded under the request's
/// dedupe key (else its id): that key holds the merge of what was stored
/// with the recorded status, every other key is as it was; with neither
/// key, nothing changes.
pub open spec fn status_recorded(
    before: DiscordAutoPushTracker,
    after: DiscordAutoPushTracker,
    fields: DiscordRequestFields,
    allowed: bool,
    reason: Seq<char>,
    auto_sent: bool,
    sent_at: Option<String>,
) -> bool {
    &&& after.seen_keys() == before.seen_keys()
    &&& match first_some(dedupe_key_of(fields), opt_string_view(fields.id)) {
        None => after.statuses() == before.statuses(),
        Some(k) => {
            &&& after.statuses().contains_key(k)
            &&& exists|incoming: DiscordAlertPublicStatus|
                #[trigger] recorded_status(incoming, allowed, reason, auto_sent, sent_at)
                    && after.statuses()[k] == merged_status(
                    if before.statuses().contains_key(k) {
                        Some(before.statuses()[k])
                    } else {
                        None
                    },
                    incoming,
                )
            &&& forall|j: Seq<char>|
                j != k && #[trigger] after.statuses().contains_key(j) ==> before.statuses().contains_key(j)
                    && after.statuses()[j] == before.statuses()[j]
        },
    }
}

/// Records the outcome of a manual or auto push under the request's
/// dedupe key (else its id), merged with what is stored there.
pub fn record_discord_alert_status(
    tracker: &mut DiscordAutoPushTracker,
    fields: &DiscordRequestFields,
    allowed: bool,
    reason: &str,
    auto_sent: bool,
    sent_at: Option<String>,
)
    requires
        old(tracker).wf(),
    ensures
        final(tracker).wf(),
        status_recorded(*old(tracker), *final(tracker), *fields, allowed, reason@, auto_sent, sent_at),
{
    let key = match push_dedupe_key(fields) {
        Some(k) => Some(k),
        None => match &fields.id {
            Some(id) => Some(id.clone()),
            None => None,
        },
    };
    let Some(key) = key else {
        return;
    };
    let mut status = status_from_decision(allowed, reason, auto_sent, sent_at);
    if !auto_sent && status.sent_at.is_some() {
        status.manual_sent_at = status.sent_at;
        status.sent_at = None;
        status.last_decision = String::from_str("sent");
        status.reason = String::from_str("manual_sent");
    }
    let ghost incoming = status;
    tracker.set_status(key.as_str(), status);
    proof {
        assert(recorded_status(incoming, allowed, reason@, auto_sent, sent_at));
    }
}

// ---------------------------------------------------------------------------
// Environment flags
// ---------------------------------------------------------------------------

pub open spec fn truthy(v: Seq<char>) -> bool {
    let t = lower(trim(v));
    t == "1"@ || t == "true"@ || t == "yes"@ || t == "on"@
}

pub open spec fn falsy(v: Seq<char>) -> bool {
    let t = lower(trim(v));
    t == "0"@ || t == "false"@ || t == "no"@ || t == "off"@
}

pub fn is_truthy(v: &str) -> (r: bool)
    ensures
        r == truthy(v@),
{
    let t = lower_chars(&trim_chars(&chars_of(v)));
    eq_str(&t, "1") || eq_str(&t, "true") || eq_str(&t, "yes") || eq_str(&t, "on")
}

/// The `DRY_RUN` safety flag: unset, empty or malformed values keep dry
/// run on; only an explicit false-like value turns it off.
pub fn discord_dry_run(value: Option<&str>) -> (r: bool)
    ensures
        r == match value {
            None => true,
            Some(v) => !falsy(v@),
        },
{
    match value {
        None => true,
        Some(v) => {
            let t = lower_chars(&trim_chars(&chars_of(v)));
            !(eq_str(&t, "0") || eq_str(&t, "false") || eq_str(&t, "no") || eq_str(&t, "off"))
        },
    }
}

/// A boolean environment flag: truthy words enable it, anything else that
/// is set disables it, and an unset flag takes `default`.
pub fn parse_bool_env(value: Option<&str>, default: bool) -> (r: bool)
    ensures
        r == match value {
            Some(v) => truthy(v@),
            None => default,
        },
{
    match value {
        Some(v) => is_truthy(v),
        None => default,
    }
}

/// A boolean flag read from a primary key, falling back to a shared key,
/// then to `default`.
pub fn parse_bool_env_with_fallback(primary: Option<&str>, fallback: Option<&str>, default: bool) -> (r:
    bool)
    ensures
        r == match primary {
            Some(v) => truthy(v@),
            None => match fallback {
                Some(v) => truthy(v@),
                None => default,
            },
        },
{
    match primary {
        Some(v) => is_truthy(v),
        None => parse_bool_env(fallback, default),
    }
}

/// Whether auto push is enabled for a family, given the family-specific
/// and shared environment values and the configured default.
pub fn discord_auto_push_enabled(family_value: Option<&str>, shared_value: Option<&str>, configured: bool) -> (r: bool)
    ensures
        r == match family_value {
            Some(v) => truthy(v@),
            None => match shared_value {
                Some(v) => truthy(v@),
                None => configured,
            },
        },
{
    parse_bool_env_with_fallback(family_value, shared_value, configured)
}

/// Whether candidates cached before boot may be auto-pushed (default no).
pub fn discord_auto_push_cached_on_boot(value: Option<&str>) -> (r: bool)
    ensures
        r == match value {
            Some(v) => truthy(v@),
            None => false,
        },
{
    parse_bool_env(value, false)
}

/// A score threshold from the environment: a `u8` no greater than 100.
pub open spec fn threshold_u8(v: Option<Seq<char>>) -> Option<int> {
    match v {
        Some(s) => match parse_unsigned(s, 255) {
            Some(n) => if n <= 100 {
                Some(n)
            } else {
                None
            },
            None => None,
        },
        None => None,
    }
}

/// Reads a score threshold from the primary value, else from the fallback;
/// values that do not parse or exceed 100 are ignored.
pub fn read_u8_env(primary: Option<&str>, fallback: Option<&str>) -> (r: Option<u8>)
    ensures
        match r {
            Some(n) => threshold_u8(opt_view_str(primary)) == Some(n as int) || (threshold_u8(
                opt_view_str(primary),
            ) is None && threshold_u8(opt_view_str(fallback)) == Some(n as int)),
            None => threshold_u8(opt_view_str(primary)) is None && threshold_u8(
                opt_view_str(fallback),
            ) is None,
        },
        threshold_u8(opt_view_str(primary)) matches Some(n) ==> r == Some(n as u8),
{
    match read_one_u8(primary) {
        Some(n) => Some(n),
        None => read_one_u8(fallback),
    }
}

pub open spec fn opt_view_str(o: Option<&str>) -> Option<Seq<char>> {
    match o {
        Some(s) => Some(s@),
        None => None,
    }
}

fn read_one_u8(v: Option<&str>) -> (r: Option<u8>)
    ensures
        match r {
            Some(n) => threshold_u8(opt_view_str(v)) == Some(n as int),
            None => threshold_u8(opt_view_str(v)) is None,
        },
{
    match v {
        Some(s) => match parse_u8(&chars_of(s)) {
            Some(n) => if n <= 100 {
                Some(n)
            } else {
                None
            },
            None => None,
        },
        None => None,
    }
}

/// The HTTP timeout for alert delivery: a positive whole number of seconds
/// from the environment, else 5.
pub fn alert_http_timeout_secs(value: Option<&str>) -> (r: u64)
    ensures
        r == match value {
            Some(v) => match parse_unsigned(v@, u64::MAX as int) {
                Some(n) => if n > 0 {
                    n as u64
                } else {
                    5
                },
                None => 5,
            },
            None => 5,
        },
{
    match value {
        Some(v) => match parse_u64(&chars_of(v)) {
            Some(n) => if n > 0 {
                n
            } else {
                5
            },
            None => 5,
        },
        None => 5,
    }
}

/// The push cooldown of a family: the family-specific value, else the
/// shared value, when it is a positive number of seconds; otherwise the
/// configured default.
pub fn default_cooldown_secs_for_family(family_value: Option<&str>, shared_value: Option<&str>, configured: u64) -> (r: u64)
    ensures
        r == {
            let first = match family_value {
                Some(v) => parse_unsigned(v@, u64::MAX as int),
                None => None,
            };
            let chosen = match first {
                Some(n) => Some(n),
                None => match shared_value {
                    Some(v) => parse_unsigned(v@, u64::MAX as int),
                    None => None,
                },
            };
            match chosen {
                Some(n) => if n > 0 {
                    n as u64
                } else {
                    configured
                },
                None => configured,
            }
        },
{
    let first = match family_value {
        Some(v) => parse_u64(&chars_of(v)),
        None => None,
    };
    let chosen = match first {
        Some(n) => Some(n),
        None => match shared_value {
            Some(v) => parse_u64(&chars_of(v)),
            None => None,
        },
    };
    match chosen {
        Some(n) => if n > 0 {
            n
        } else {
            configured
        },
        None => configured,
    }
}

} // verus!
