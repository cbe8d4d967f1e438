//! The Discord webhook message of a toxic-order candidate signal.
//!
//! Raw evidence, markouts and anything that looks like a secret never reach
//! the message: free text from the signal is shown only when it passes
//! [`looks_like_forbidden_alert_content`], and every field is cut to
//! [`FIELD_LIMIT`] characters.
use vstd::prelude::*;

use crate::keyed::str_eq;
use crate::text::{chars_of, contains, contains_str, lower, lower_chars, nat_decimal, prefix_chars, push_str, string_of, trim, trim_chars, u64_decimal};

verus! {

/// Longest field value, in characters.
pub const FIELD_LIMIT: usize = 900;

/// The webhook body.
pub struct DiscordWebhookPayload {
    pub content: Option<String>,
    pub embeds: Vec<DiscordEmbed>,
}

/// One embed of a webhook message.
pub struct DiscordEmbed {
    pub title: String,
    pub description: String,
    pub color: u32,
    pub fields: Vec<DiscordEmbedField>,
    pub footer: Option<DiscordEmbedFooter>,
    pub timestamp: Option<String>,
}

/// A named field of an embed.
pub struct DiscordEmbedField {
    pub name: String,
    pub value: String,
    pub inline: bool,
}

/// The footer line of an embed.
pub struct DiscordEmbedFooter {
    pub text: String,
}

/// The kind of a toxic-order signal.
#[derive(PartialEq, Eq, Structural, Clone, Copy)]
pub enum ToxicSignalType {
    ShortBiasToxicFlow,
    LongBiasToxicFlow,
    TrapRisk,
    BullTrapRisk,
    BearTrapRisk,
    SqueezeRiskUpside,
    SqueezeRiskDownside,
    AbsorptionReversalCandidate,
    LiquiditySweepReversalCandidate,
    NoTradeChopRisk,
    SpoofingCandidate,
    LayeringCandidate,
    IcebergCandidate,
}

/// The bias of a toxic-order signal.
#[derive(PartialEq, Eq, Structural, Clone, Copy)]
pub enum ToxicSignalDirection {
    ShortBias,
    LongBias,
    TrapRisk,
    Neutral,
}

/// A toxic-order signal, as far as its message shows it.
pub struct ToxicSignal {
    pub signal_id: String,
    pub symbol: String,
    pub signal_type: ToxicSignalType,
    pub direction: ToxicSignalDirection,
    pub toxicity_score: u8,
    pub primary_reason: String,
    pub reason: Vec<String>,
    /// The venue of the signal's evidence, when it has evidence.
    pub evidence_venue: Option<String>,
}

/// What the candidate message is built from. The score and data-quality
/// texts and the colour are computed from the measured values by the caller
/// (see [`format_score_u8`] and [`embed_color_u8`] for integer scores).
pub struct DiscordCandidateMessageInput {
    pub signal_id: Option<String>,
    pub venue: Option<String>,
    pub symbol: String,
    pub event_type: String,
    pub side: Option<String>,
    pub score_text: String,
    pub data_quality_text: String,
    pub color: u32,
    pub primary_reason: Option<String>,
    pub impact: Option<String>,
    pub timestamp: Option<String>,
}

pub open spec fn type_key(t: ToxicSignalType) -> Seq<char> {
    match t {
        ToxicSignalType::ShortBiasToxicFlow => "ShortBiasToxicFlow"@,
        ToxicSignalType::LongBiasToxicFlow => "LongBiasToxicFlow"@,
        ToxicSignalType::TrapRisk => "TrapRisk"@,
        ToxicSignalType::BullTrapRisk => "BullTrapRisk"@,
        ToxicSignalType::BearTrapRisk => "BearTrapRisk"@,
        ToxicSignalType::SqueezeRiskUpside => "SqueezeRiskUpside"@,
        ToxicSignalType::SqueezeRiskDownside => "SqueezeRiskDownside"@,
        ToxicSignalType::AbsorptionReversalCandidate => "AbsorptionReversalCandidate"@,
        ToxicSignalType::LiquiditySweepReversalCandidate => "LiquiditySweepReversalCandidate"@,
        ToxicSignalType::NoTradeChopRisk => "NoTradeChopRisk"@,
        ToxicSignalType::SpoofingCandidate => "SpoofingCandidate"@,
        ToxicSignalType::LayeringCandidate => "LayeringCandidate"@,
        ToxicSignalType::IcebergCandidate => "IcebergCandidate"@,
    }
}

/// The name of a signal type.
pub fn signal_type_key(signal_type: ToxicSignalType) -> (r: &'static str)
    ensures
        r@ == type_key(signal_type),
{
    match signal_type {
        ToxicSignalType::ShortBiasToxicFlow => "ShortBiasToxicFlow",
        ToxicSignalType::LongBiasToxicFlow => "LongBiasToxicFlow",
        ToxicSignalType::TrapRisk => "TrapRisk",
        ToxicSignalType::BullTrapRisk => "BullTrapRisk",
        ToxicSignalType::BearTrapRisk => "BearTrapRisk",
        ToxicSignalType::SqueezeRiskUpside => "SqueezeRiskUpside",
        ToxicSignalType::SqueezeRiskDownside => "SqueezeRiskDownside",
        ToxicSignalType::AbsorptionReversalCandidate => "AbsorptionReversalCandidate",
        ToxicSignalType::LiquiditySweepReversalCandidate => "LiquiditySweepReversalCandidate",
        ToxicSignalType::NoTradeChopRisk => "NoTradeChopRisk",
        ToxicSignalType::SpoofingCandidate => "SpoofingCandidate",
        ToxicSignalType::LayeringCandidate => "LayeringCandidate",
        ToxicSignalType::IcebergCandidate => "IcebergCandidate",
    }
}

pub open spec fn side_of(d: ToxicSignalDirection) -> Option<Seq<char>> {
    match d {
        ToxicSignalDirection::ShortBias => Some("Ask/Sell"@),
        ToxicSignalDirection::LongBias => Some("Bid/Buy"@),
        ToxicSignalDirection::TrapRisk | ToxicSignalDirection::Neutral => None,
    }
}

pub open spec fn opt_string_view(o: Option<String>) -> Option<Seq<char>> {
    match o {
        Some(s) => Some(s@),
        None => None,
    }
}

/// The book side a signal leans to: ask for a short bias, bid for a long
/// one, none otherwise.
pub fn side_from_signal(signal: &ToxicSignal) -> (r: Option<String>)
    ensures
        opt_string_view(r) == side_of(signal.direction),
{
    match signal.direction {
        ToxicSignalDirection::ShortBias => Some(String::from_str("Ask/Sell")),
        ToxicSignalDirection::LongBias => Some(String::from_str("Bid/Buy")),
        ToxicSignalDirection::TrapRisk | ToxicSignalDirection::Neutral => None,
    }
}

/// Text that must never be forwarded: markouts, raw payloads, webhooks,
/// credentials (ignoring ASCII case), or the evidence labels.
pub open spec fn forbidden(v: Seq<char>) -> bool {
    let l = lower(v);
    contains(l, "markout"@) || contains(l, "rawpayload"@) || contains(l, "raw_payload"@)
        || contains(l, "webhook"@) || contains(l, "authorization"@) || contains(v, "盘口证据"@)
        || contains(v, "撤后 Markout"@)
}

/// Whether `value` looks like content that must not be sent.
pub fn looks_like_forbidden_alert_content(value: &str) -> (r: bool)
    ensures
        r == forbidden(value@),
{
    let v = chars_of(value);
    let l = lower_chars(&v);
    contains_str(&l, "markout") || contains_str(&l, "rawpayload") || contains_str(&l, "raw_payload")
        || contains_str(&l, "webhook") || contains_str(&l, "authorization") || contains_str(
        &v,
        "盘口证据",
    ) || contains_str(&v, "撤后 Markout")
}

/// At most [`FIELD_LIMIT`] characters: a longer text keeps its first 899
/// characters and ends with an ellipsis.
pub open spec fn truncated(v: Seq<char>) -> Seq<char> {
    if v.len() <= FIELD_LIMIT {
        v
    } else {
        v.subrange(0, FIELD_LIMIT - 1).push('…')
    }
}

pub fn truncate_field(value: &str) -> (r: String)
    ensures
        r@ == truncated(value@),
{
    let v = chars_of(value);
    if v.len() <= FIELD_LIMIT {
        return String::from_str(value);
    }
    let mut p = prefix_chars(&v, FIELD_LIMIT - 1);
    p.push('…');
    string_of(&p)
}

/// A field whose value is cut to the limit.
pub fn field(name: &str, value: String, inline: bool) -> (r: DiscordEmbedField)
    ensures
        r.name@ == name@,
        r.value@ == truncated(value@),
        r.inline == inline,
{
    DiscordEmbedField {
        name: String::from_str(name),
        value: truncate_field(value.as_str()),
        inline,
    }
}

/// `n/100`, with thousands separated by commas as the score format writes
/// them (a `u8` never needs one).
pub open spec fn score_text(n: u8) -> Seq<char> {
    nat_decimal(n as nat) + "/100"@
}

/// The score text of an integer score.
pub fn format_score_u8(value: u8) -> (r: String)
    ensures
        r@ == score_text(value),
{
    let mut v = u64_decimal(value as u64);
    push_str(&mut v, "/100");
    string_of(&v)
}

pub open spec fn color_of(score: int) -> u32 {
    if score >= 90 {
        0x8B0000
    } else if score >= 80 {
        0xFF0000
    } else if score >= 60 {
        0xFFA500
    } else if score >= 40 {
        0xFFD700
    } else {
        0x607D8B
    }
}

/// The embed colour of an integer score: dark red from 90, red from 80,
/// orange from 60, gold from 40, grey below.
pub fn embed_color_u8(score: u8) -> (r: u32)
    ensures
        r == color_of(score as int),
{
    if score >= 90 {
        0x8B0000
    } else if score >= 80 {
        0xFF0000
    } else if score >= 60 {
        0xFFA500
    } else if score >= 40 {
        0xFFD700
    } else {
        0x607D8B
    }
}

pub open spec fn or_na(o: Option<String>) -> Seq<char> {
    match o {
        Some(s) => s@,
        None => "N/A"@,
    }
}

pub open spec fn spoofing_side_label(side: Option<String>) -> Seq<char> {
    match side {
        Some(s) => if s@ == "Bid/Buy"@ {
            "疑似大额买墙托盘"@
        } else if s@ == "Ask/Sell"@ {
            "疑似大额卖墙压盘"@
        } else {
            "疑似诱导挂单"@
        },
        None => "疑似诱导挂单"@,
    }
}

pub open spec fn generic_reason() -> Seq<char> {
    "检测到疑似盘口异常候选信号。详情请在 Dashboard 查看。"@
}

/// The core reason of a candidate: a fixed explanation per kind of event
/// (spoofing by side, layering, iceberg, liquidity pull, sweep), else the
/// signal's own primary reason when it is not blank and not forbidden, else
/// a generic sentence.
pub open spec fn reason_of(input: DiscordCandidateMessageInput) -> Seq<char> {
    let et = input.event_type@;
    if contains(et, "SpoofingCandidate"@) {
        spoofing_side_label(input.side) + "：公开盘口出现短时挂单墙后快速撤除的候选行为。详情请在 Dashboard 查看。"@
    } else if contains(et, "LayeringCandidate"@) {
        "疑似分层挂单：同侧多个价位层在短窗口内同步出现/撤除的候选行为。详情请在 Dashboard 查看。"@
    } else if contains(et, "IcebergCandidate"@) {
        "疑似冰山单：可见挂单与累计成交不匹配的隐藏流动性候选。详情请在 Dashboard 查看。"@
    } else if contains(et, "LiquidityPull"@) || contains(et, "LiquidityThinness"@) || contains(
        et,
        "NoTradeChop"@,
    ) {
        "疑似流动性抽离："@ + or_na(input.side) + " 侧盘口深度短时下降的候选行为。详情请在 Dashboard 查看。"@
    } else if contains(et, "Sweep"@) || contains(et, "ToxicFlow"@) || contains(et, "WhaleFlow"@) {
        "疑似主动扫单：短时出现大额主动 "@ + or_na(input.side) + " 成交的候选行为。详情请在 Dashboard 查看。"@
    } else {
        match input.primary_reason {
            Some(r) => if trim(r@).len() == 0 || forbidden(r@) {
                generic_reason()
            } else {
                r@
            },
            None => generic_reason(),
        }
    }
}

fn side_or_na(side: &Option<String>) -> (r: &str)
    ensures
        r@ == or_na(*side),
{
    match side {
        Some(s) => s.as_str(),
        None => "N/A",
    }
}

pub fn event_reason(input: &DiscordCandidateMessageInput) -> (r: String)
    ensures
        r@ == reason_of(*input),
{
    let et = chars_of(input.event_type.as_str());
    if contains_str(&et, "SpoofingCandidate") {
        let side_label = match &input.side {
            Some(s) => if str_eq(s.as_str(), "Bid/Buy") {
                "疑似大额买墙托盘"
            } else if str_eq(s.as_str(), "Ask/Sell") {
                "疑似大额卖墙压盘"
            } else {
                "疑似诱导挂单"
            },
            None => "疑似诱导挂单",
        };
        let mut v = chars_of(side_label);
        push_str(&mut v, "：公开盘口出现短时挂单墙后快速撤除的候选行为。详情请在 Dashboard 查看。");
        return string_of(&v);
    }
    if contains_str(&et, "LayeringCandidate") {
        return String::from_str(
            "疑似分层挂单：同侧多个价位层在短窗口内同步出现/撤除的候选行为。详情请在 Dashboard 查看。",
        );
    }
    if contains_str(&et, "IcebergCandidate") {
        return String::from_str(
            "疑似冰山单：可见挂单与累计成交不匹配的隐藏流动性候选。详情请在 Dashboard 查看。",
        );
    }
    if contains_str(&et, "LiquidityPull") || contains_str(&et, "LiquidityThinness") || contains_str(
        &et,
        "NoTradeChop",
    ) {
        let mut v = chars_of("疑似流动性抽离：");
        push_str(&mut v, side_or_na(&input.side));
        push_str(&mut v, " 侧盘口深度短时下降的候选行为。详情请在 Dashboard 查看。");
        return string_of(&v);
    }
    if contains_str(&et, "Sweep") || contains_str(&et, "ToxicFlow") || contains_str(
        &et,
        "WhaleFlow",
    ) {
        let mut v = chars_of("疑似主动扫单：短时出现大额主动 ");
        push_str(&mut v, side_or_na(&input.side));
        push_str(&mut v, " 成交的候选行为。详情请在 Dashboard 查看。");
        return string_of(&v);
    }
    match &input.primary_reason {
        Some(reason) => {
            let t = trim_chars(&chars_of(reason.as_str()));
            if t.len() == 0 || looks_like_forbidden_alert_content(reason.as_str()) {
                String::from_str("检测到疑似盘口异常候选信号。详情请在 Dashboard 查看。")
            } else {
                reason.clone()
            }
        },
        None => String::from_str("检测到疑似盘口异常候选信号。详情请在 Dashboard 查看。"),
    }
}

/// The event type shown: the given one, or "Unknown" when blank.
pub open spec fn event_type_shown(input: DiscordCandidateMessageInput) -> Seq<char> {
    if trim(input.event_type@).len() == 0 {
        "Unknown"@
    } else {
        input.event_type@
    }
}

/// The impact shown, when the input has one that is not blank and not
/// forbidden.
pub open spec fn impact_shown(input: DiscordCandidateMessageInput) -> Option<Seq<char>> {
    match input.impact {
        Some(i) => if trim(i@).len() > 0 && !forbidden(i@) {
            Some(i@)
        } else {
            None
        },
        None => None,
    }
}

pub open spec fn field_view(f: DiscordEmbedField) -> (Seq<char>, Seq<char>, bool) {
    (f.name@, f.value@, f.inline)
}

pub open spec fn notice() -> Seq<char> {
    "该信号基于公开盘口 / L2 数据推断，为 Candidate，不是执法或定性结论。详情请在 Dashboard 查看。"@
}

/// The fields of the message, in order: score, data quality, type, side,
/// core reason, the impact when shown, and the notice; every value cut to
/// the limit.
pub open spec fn fields_of(input: DiscordCandidateMessageInput) -> Seq<(Seq<char>, Seq<char>, bool)> {
    let head = seq![
        ("风险评分"@, truncated(input.score_text@), true),
        ("数据质量"@, truncated(input.data_quality_text@), true),
        ("异常类型"@, truncated(event_type_shown(input)), true),
        ("方向"@, truncated(or_na(input.side)), true),
        ("核心原因"@, truncated(truncated(reason_of(input))), false),
    ];
    let with_impact = match impact_shown(input) {
        Some(i) => head.push(("影响解读"@, truncated(truncated(i)), false)),
        None => head,
    };
    with_impact.push(("说明"@, truncated(notice()), false))
}

/// The candidate message of `input`.
pub fn build_discord_candidate_message_from_input(input: &DiscordCandidateMessageInput) -> (r:
    DiscordWebhookPayload)
    ensures
        r.content is None,
        r.embeds@.len() == 1,
        r.embeds@[0].title@ == "疑似有毒订单候选信号："@ + input.symbol@,
        r.embeds@[0].description@ == or_na(input.venue) + " / "@ + input.symbol@ + " · "@
            + event_type_shown(*input) + " · "@ + or_na(input.side),
        r.embeds@[0].color == input.color,
        r.embeds@[0].fields@.map_values(|f: DiscordEmbedField| field_view(f)) == fields_of(*input),
        r.embeds@[0].footer matches Some(f) && f.text@
            == "Candidate only. Not an enforcement conclusion. Signal: "@ + or_na(input.signal_id),
        r.embeds@[0].timestamp == input.timestamp,
{
    let side = side_or_na(&input.side);
    let et_chars = trim_chars(&chars_of(input.event_type.as_str()));
    let event_type: &str = if et_chars.len() == 0 {
        "Unknown"
    } else {
        input.event_type.as_str()
    };
    let reason = truncate_field(event_reason(input).as_str());
    let mut fields: Vec<DiscordEmbedField> = Vec::new();
    fields.push(field("风险评分", input.score_text.clone(), true));
    fields.push(field("数据质量", input.data_quality_text.clone(), true));
    fields.push(field("异常类型", String::from_str(event_type), true));
    fields.push(field("方向", String::from_str(side), true));
    fields.push(field("核心原因", reason, false));
    let ghost head = fields@;
    match &input.impact {
        Some(impact) => {
            let t = trim_chars(&chars_of(impact.as_str()));
            if t.len() > 0 && !looks_like_forbidden_alert_content(impact.as_str()) {
                fields.push(field("影响解读", truncate_field(impact.as_str()), false));
            }
        },
        None => {},
    }
    let ghost with_impact = fields@;
    fields.push(
        field(
            "说明",
            String::from_str(
                "该信号基于公开盘口 / L2 数据推断，为 Candidate，不是执法或定性结论。详情请在 Dashboard 查看。",
            ),
            false,
        ),
    );
    proof {
        assert(head.map_values(|f: DiscordEmbedField| field_view(f)) =~= seq![
            ("风险评分"@, truncated(input.score_text@), true),
            ("数据质量"@, truncated(input.data_quality_text@), true),
            ("异常类型"@, truncated(event_type_shown(*input)), true),
            ("方向"@, truncated(or_na(input.side)), true),
            ("核心原因"@, truncated(truncated(reason_of(*input))), false),
        ]);
        assert(fields@.map_values(|f: DiscordEmbedField| field_view(f)) =~= fields_of(*input));
    }
    let mut title = chars_of("疑似有毒订单候选信号：");
    push_str(&mut title, input.symbol.as_str());
    let mut description = chars_of(side_or_na(&input.venue));
    push_str(&mut description, " / ");
    push_str(&mut description, input.symbol.as_str());
    push_str(&mut description, " · ");
    push_str(&mut description, event_type);
    push_str(&mut description, " · ");
    push_str(&mut description, side);
    let mut footer = chars_of("Candidate only. Not an enforcement conclusion. Signal: ");
    push_str(&mut footer, side_or_na(&input.signal_id));
    let mut embeds: Vec<DiscordEmbed> = Vec::new();
    embeds.push(
        DiscordEmbed {
            title: string_of(&title),
            description: string_of(&description),
            color: input.color,
            fields,
            footer: Some(DiscordEmbedFooter { text: string_of(&footer) }),
            timestamp: match &input.timestamp {
                Some(t) => Some(t.clone()),
                None => None,
            },
        },
    );
    DiscordWebhookPayload { content: None, embeds }
}

/// The message input of a signal: its id, evidence venue, symbol and kind,
/// the side it leans to, its integer score, the given data-quality text,
/// its primary reason, and its first reason as the impact unless forbidden.
pub fn candidate_input_from_signal(signal: &ToxicSignal, data_quality_text: &str) -> (r:
    DiscordCandidateMessageInput)
    ensures
        r.signal_id == Some(signal.signal_id),
        r.venue == signal.evidence_venue,
        r.symbol == signal.symbol,
        r.event_type@ == type_key(signal.signal_type),
        opt_string_view(r.side) == side_of(signal.direction),
        r.score_text@ == score_text(signal.toxicity_score),
        r.data_quality_text@ == data_quality_text@,
        r.color == color_of(signal.toxicity_score as int),
        r.primary_reason == Some(signal.primary_reason),
        r.impact == if signal.reason@.len() > 0 && !forbidden(signal.reason@[0]@) {
            Some(signal.reason@[0])
        } else {
            None
        },
        r.timestamp is None,
{
    let impact = if signal.reason.len() > 0 && !looks_like_forbidden_alert_content(
        signal.reason[0].as_str(),
    ) {
        Some(signal.reason[0].clone())
    } else {
        None
    };
    DiscordCandidateMessageInput {
        signal_id: Some(signal.signal_id.clone()),
        venue: match &signal.evidence_venue {
            Some(v) => Some(v.clone()),
            None => None,
        },
        symbol: signal.symbol.clone(),
        event_type: String::from_str(signal_type_key(signal.signal_type)),
        side: side_from_signal(signal),
        score_text: format_score_u8(signal.toxicity_score),
        data_quality_text: String::from_str(data_quality_text),
        color: embed_color_u8(signal.toxicity_score),
        primary_reason: Some(signal.primary_reason.clone()),
        impact,
        timestamp: None,
    }
}

/// The candidate message of a signal; `data_quality_text` is its formatted
/// data quality.
pub fn build_discord_candidate_message(signal: &ToxicSignal, data_quality_text: &str) -> (r:
    DiscordWebhookPayload)
    ensures
        exists|input: DiscordCandidateMessageInput|
            {
                &&& input.symbol == signal.symbol
                &&& input.event_type@ == type_key(signal.signal_type)
                &&& opt_string_view(input.side) == side_of(signal.direction)
                &&& input.score_text@ == score_text(signal.toxicity_score)
                &&& input.data_quality_text@ == data_quality_text@
                &&& input.color == color_of(signal.toxicity_score as int)
                &&& input.signal_id == Some(signal.signal_id)
                &&& input.venue == signal.evidence_venue
                &&& input.primary_reason == Some(signal.primary_reason)
                &&& input.impact == if signal.reason@.len() > 0 && !forbidden(signal.reason@[0]@) {
                    Some(signal.reason@[0])
                } else {
                    None
                }
                &&& input.timestamp is None
                &&& r.content is None
                &&& r.embeds@.len() == 1
                &&& r.embeds@[0].title@ == "疑似有毒订单候选信号："@ + input.symbol@
                &&& r.embeds@[0].description@ == or_na(input.venue) + " / "@ + input.symbol@ + " · "@
                    + event_type_shown(input) + " · "@ + or_na(input.side)
                &&& r.embeds@[0].color == input.color
                &&& r.embeds@[0].fields@.map_values(|f: DiscordEmbedField| field_view(f))
                    == fields_of(input)
                &&& r.embeds@[0].footer matches Some(f) && f.text@
                    == "Candidate only. Not an enforcement conclusion. Signal: "@ + or_na(
                    input.signal_id,
                )
                &&& r.embeds@[0].timestamp is None
            },
{
    let input = candidate_input_from_signal(signal, data_quality_text);
    build_discord_candidate_message_from_input(&input)
}

} // verus!
