//! The Discord messages of the two alert families: the market-structure
//! message and the short-term toxic-order message, with their reason
//! bullets and judgments.
//!
//! Measurements that are floating point come in already written as text,
//! and the flags that depend on them already decided.
use vstd::prelude::*;

use crate::discord::{
    alert_family_label, discord_direction_emoji, discord_embed_color_from_direction,
    family_label_of, impact_level_of, market_structure_direction_from_bias,
    market_structure_impact_level, market_structure_regime_label, market_structure_severity_label,
    opt_string_view, or_default, or_zero, regime_label, severity_label_of, short_pressure_label,
    short_toxic_type_label, structure_bias_label, type_label_of, DiscordRequestFields,
    NormalizedDiscordDirection, direction_of, normalize_signal_direction,
};
use crate::message::{field_view, DiscordEmbed, DiscordEmbedField, DiscordEmbedFooter, DiscordWebhookPayload};
use crate::proxy::discord_channel_name;
use crate::text::{
    append_chars, chars_of, eq_str, i64_decimal, int_decimal, nat_decimal, push_str, string_of,
    trim, trim_chars, trim_end_matches, trim_end_matches_str, u64_decimal,
};

verus! {

// ---------------------------------------------------------------------------
// Bullets
// ---------------------------------------------------------------------------

/// The lines of `rs`, each as `- line`, joined by newlines.
pub open spec fn bullets(rs: Seq<Seq<char>>) -> Seq<char>
    decreases rs.len(),
{
    if rs.len() == 0 {
        Seq::empty()
    } else if rs.len() == 1 {
        "- "@ + rs[0]
    } else {
        bullets(rs.drop_last()) + "\n- "@ + rs.last()
    }
}

/// The first `n` items of `rs`, or all of them when there are fewer.
pub open spec fn first_n(rs: Seq<Seq<char>>, n: int) -> Seq<Seq<char>> {
    if rs.len() <= n {
        rs
    } else {
        rs.take(n)
    }
}

fn bullets_exec(rs: &Vec<Vec<char>>, n: usize) -> (r: Vec<char>)
    ensures
        r@ == bullets(first_n(rs@.map_values(|v: Vec<char>| v@), n as int)),
{
    let ghost all = rs@.map_values(|v: Vec<char>| v@);
    let m: usize = if rs.len() <= n {
        rs.len()
    } else {
        n
    };
    let mut out: Vec<char> = Vec::new();
    let mut i: usize = 0;
    while i < m
        invariant
            m <= rs@.len(),
            all == rs@.map_values(|v: Vec<char>| v@),
            i <= m,
            out@ == bullets(all.take(i as int)),
        decreases m - i,
    {
        let ghost prev = all.take(i as int);
        if i > 0 {
            push_str(&mut out, "\n- ");
        } else {
            push_str(&mut out, "- ");
        }
        append_chars(&mut out, &rs[i]);
        proof {
            let next = all.take(i + 1);
            assert(next.drop_last() =~= prev);
            assert(next.last() == rs@[i as int]@);
            if i == 0 {
                assert(next.len() == 1);
                assert(next[0] == rs@[0]@);
            }
        }
        i = i + 1;
    }
    proof {
        assert(all.take(m as int) =~= first_n(all, n as int));
    }
    out
}

// ---------------------------------------------------------------------------
// The market-structure message
// ---------------------------------------------------------------------------

/// Which of the evidence a market-structure message may cite: each flag is
/// set when the metrics are present and their lineage is alert-eligible,
/// and `price_shock` when the price impact is finite and not zero. All of
/// them count only when the server verified the evidence.
pub struct MarketStructureEvidence {
    pub perp_eligible: bool,
    pub liquidation_eligible: bool,
    pub spot_eligible: bool,
    pub price_shock: bool,
}

pub open spec fn contract_reason(d: NormalizedDiscordDirection) -> Seq<char> {
    match d {
        NormalizedDiscordDirection::Bullish => "合约主动买入显著放大"@,
        NormalizedDiscordDirection::Bearish => "合约主动卖出爆发"@,
        NormalizedDiscordDirection::Neutral => "合约主动成交流异常放大"@,
    }
}

pub open spec fn oi_reason(d: NormalizedDiscordDirection) -> Seq<char> {
    match d {
        NormalizedDiscordDirection::Bullish => "OI 同步上升，偏新多开仓"@,
        NormalizedDiscordDirection::Bearish => "OI 同步上升，偏新空开仓"@,
        NormalizedDiscordDirection::Neutral => "OI 变化明显，结构进入再定价"@,
    }
}

pub open spec fn spot_reason(regime: Seq<char>, d: NormalizedDiscordDirection) -> Seq<char> {
    if regime == "downside_absorption"@ {
        "现货买盘承接明显"@
    } else if regime == "upside_resistance"@ {
        "现货卖盘压制明显"@
    } else {
        match d {
            NormalizedDiscordDirection::Bullish => "现货主动买入跟随"@,
            NormalizedDiscordDirection::Bearish => "现货主动卖出跟随"@,
            NormalizedDiscordDirection::Neutral => "现货成交方向开始配合"@,
        }
    }
}

/// Every reason a market-structure message could give, in order: contract
/// flow, open interest, spot flow, price shock, liquidations.
pub open spec fn structure_reason_list(
    f: DiscordRequestFields,
    ev: MarketStructureEvidence,
    d: NormalizedDiscordDirection,
    regime: Seq<char>,
    extreme: bool,
) -> Seq<Seq<char>> {
    let v = f.server_evidence_verified;
    let r1 = if or_zero(f.contract_score) >= 70 {
        seq![contract_reason(d)]
    } else {
        Seq::empty()
    };
    let r2 = if v && ev.perp_eligible {
        if or_zero(f.oi_score) >= 70 {
            seq![oi_reason(d)]
        } else if extreme {
            seq!["OI 快速下降"@]
        } else {
            Seq::empty()
        }
    } else {
        Seq::empty()
    };
    let r3 = if v && ev.spot_eligible {
        if or_zero(f.spot_score) >= 60 {
            seq![spot_reason(regime, d)]
        } else if extreme {
            seq!["现货卖出确认不足"@]
        } else {
            Seq::empty()
        }
    } else {
        Seq::empty()
    };
    let r4 = if v && ev.price_shock {
        seq!["价格出现明显短线冲击"@]
    } else {
        Seq::empty()
    };
    let r5 = if v && ev.liquidation_eligible && or_zero(f.liquidation_score) >= 70 && extreme {
        seq!["多头清算显著增加"@]
    } else {
        Seq::empty()
    };
    r1 + r2 + r3 + r4 + r5
}

fn push_lit(rs: &mut Vec<Vec<char>>, lit: &str)
    ensures
        final(rs)@.map_values(|v: Vec<char>| v@) == old(rs)@.map_values(|v: Vec<char>| v@).push(
            lit@,
        ),
{
    let ghost before = rs@;
    rs.push(chars_of(lit));
    proof {
        assert(rs@.map_values(|v: Vec<char>| v@) =~= before.map_values(|v: Vec<char>| v@).push(
            lit@,
        ));
    }
}

/// The reasons of a market-structure message: the first four of
/// [`structure_reason_list`], as bullets.
pub fn market_structure_reasons(
    fields: &DiscordRequestFields,
    evidence: &MarketStructureEvidence,
    direction: NormalizedDiscordDirection,
    regime_type: &str,
    extreme_template: bool,
) -> (r: String)
    ensures
        r@ == bullets(
            first_n(
                structure_reason_list(*fields, *evidence, direction, regime_type@, extreme_template),
                4,
            ),
        ),
{
    let verified = fields.server_evidence_verified;
    let mut rs: Vec<Vec<char>> = Vec::new();
    let ghost a = rs@.map_values(|v: Vec<char>| v@);
    if or_zero_exec(fields.contract_score) >= 70 {
        push_lit(
            &mut rs,
            match direction {
                NormalizedDiscordDirection::Bullish => "合约主动买入显著放大",
                NormalizedDiscordDirection::Bearish => "合约主动卖出爆发",
                NormalizedDiscordDirection::Neutral => "合约主动成交流异常放大",
            },
        );
    }
    let ghost b = rs@.map_values(|v: Vec<char>| v@);
    if verified && evidence.perp_eligible {
        if or_zero_exec(fields.oi_score) >= 70 {
            push_lit(
                &mut rs,
                match direction {
                    NormalizedDiscordDirection::Bullish => "OI 同步上升，偏新多开仓",
                    NormalizedDiscordDirection::Bearish => "OI 同步上升，偏新空开仓",
                    NormalizedDiscordDirection::Neutral => "OI 变化明显，结构进入再定价",
                },
            );
        } else if extreme_template {
            push_lit(&mut rs, "OI 快速下降");
        }
    }
    let ghost c = rs@.map_values(|v: Vec<char>| v@);
    if verified && evidence.spot_eligible {
        if or_zero_exec(fields.spot_score) >= 60 {
            let rv = chars_of(regime_type);
            let line: &str = if eq_str(&rv, "downside_absorption") {
                "现货买盘承接明显"
            } else if eq_str(&rv, "upside_resistance") {
                "现货卖盘压制明显"
            } else {
                match direction {
                    NormalizedDiscordDirection::Bullish => "现货主动买入跟随",
                    NormalizedDiscordDirection::Bearish => "现货主动卖出跟随",
                    NormalizedDiscordDirection::Neutral => "现货成交方向开始配合",
                }
            };
            push_lit(&mut rs, line);
        } else if extreme_template {
            push_lit(&mut rs, "现货卖出确认不足");
        }
    }
    let ghost d = rs@.map_values(|v: Vec<char>| v@);
    if verified && evidence.price_shock {
        push_lit(&mut rs, "价格出现明显短线冲击");
    }
    let ghost e = rs@.map_values(|v: Vec<char>| v@);
    if verified && evidence.liquidation_eligible && or_zero_exec(fields.liquidation_score) >= 70
        && extreme_template {
        push_lit(&mut rs, "多头清算显著增加");
    }
    proof {
        let l = structure_reason_list(*fields, *evidence, direction, regime_type@, extreme_template);
        assert(a =~= Seq::<Seq<char>>::empty());
        assert(rs@.map_values(|v: Vec<char>| v@) =~= l);
    }
    let out = bullets_exec(&rs, 4);
    string_of(&out)
}

fn or_zero_exec(o: Option<u8>) -> (r: u8)
    ensures
        r == or_zero(o),
{
    match o {
        Some(v) => v,
        None => 0,
    }
}

/// The judgment line of a market-structure message.
pub open spec fn judgment_of(regime: Seq<char>, final_result: Seq<char>, extreme: bool) -> Seq<char> {
    let stem = trim_end_matches(final_result, "。"@);
    if extreme {
        if regime == "long_liquidation_cascade"@ || regime == "main_force_short_build"@ {
            "这是极端下跌冲击，但暂不确认是主力建空。"@
        } else {
            stem + "；这是极端行情冲击，但暂不确认是持续主力结构异动。"@
        }
    } else if regime == "main_force_long_build"@ {
        "高概率主力建多，不是单纯清算推动。"@
    } else if regime == "main_force_short_build"@ {
        "高概率主力建空，不是单纯反弹回落。"@
    } else if regime == "spot_accumulation"@ {
        "现货吸筹迹象增强，偏向中长线承接。"@
    } else if regime == "spot_distribution"@ {
        "现货派发迹象增强，追多质量下降。"@
    } else if regime == "contract_flow_shock"@ {
        "当前更像合约侧冲击，现货/OI/价格尚未形成主力确认。"@
    } else if regime == "downside_absorption"@ {
        "下方承接明确，但方向还没有完全展开。"@
    } else if regime == "upside_resistance"@ {
        "上方压制明确，但趋势尚未完全下破。"@
    } else {
        stem + "；主力结构异动增强，建议继续观察现货和合约是否继续同向确认。"@
    }
}

/// The judgment of a market-structure message: a fixed sentence for the
/// known regimes, else the final result (without its trailing full stops)
/// followed by a note; an extreme impact gets its own wording.
pub fn market_structure_judgment(regime_type: &str, final_result: &str, extreme_template: bool) -> (r:
    String)
    ensures
        r@ == judgment_of(regime_type@, final_result@, extreme_template),
{
    let rv = chars_of(regime_type);
    let stem = trim_end_matches_str(&chars_of(final_result), "。");
    if extreme_template {
        if eq_str(&rv, "long_liquidation_cascade") || eq_str(&rv, "main_force_short_build") {
            return String::from_str("这是极端下跌冲击，但暂不确认是主力建空。");
        }
        let mut v = stem;
        push_str(&mut v, "；这是极端行情冲击，但暂不确认是持续主力结构异动。");
        return string_of(&v);
    }
    let fixed: Option<&str> = if eq_str(&rv, "main_force_long_build") {
        Some("高概率主力建多，不是单纯清算推动。")
    } else if eq_str(&rv, "main_force_short_build") {
        Some("高概率主力建空，不是单纯反弹回落。")
    } else if eq_str(&rv, "spot_accumulation") {
        Some("现货吸筹迹象增强，偏向中长线承接。")
    } else if eq_str(&rv, "spot_distribution") {
        Some("现货派发迹象增强，追多质量下降。")
    } else if eq_str(&rv, "contract_flow_shock") {
        Some("当前更像合约侧冲击，现货/OI/价格尚未形成主力确认。")
    } else if eq_str(&rv, "downside_absorption") {
        Some("下方承接明确，但方向还没有完全展开。")
    } else if eq_str(&rv, "upside_resistance") {
        Some("上方压制明确，但趋势尚未完全下破。")
    } else {
        None
    };
    match fixed {
        Some(s) => String::from_str(s),
        None => {
            let mut v = stem;
            push_str(&mut v, "；主力结构异动增强，建议继续观察现货和合约是否继续同向确认。");
            string_of(&v)
        },
    }
}

// ---------------------------------------------------------------------------
// Shared pieces of both messages
// ---------------------------------------------------------------------------

/// `o`, or `default` when it is absent.
fn or_str<'a>(o: &'a Option<String>, default: &'a str) -> (r: &'a str)
    ensures
        r@ == or_default(*o, default@),
{
    match o {
        Some(s) => s.as_str(),
        None => default,
    }
}

/// `n/100`, or `N/A` when there is no score.
pub open spec fn score_or_na(o: Option<u8>) -> Seq<char> {
    match o {
        Some(v) => nat_decimal(v as nat) + "/100"@,
        None => "N/A"@,
    }
}

fn score_or_na_exec(o: Option<u8>) -> (r: Vec<char>)
    ensures
        r@ == score_or_na(o),
{
    match o {
        Some(v) => {
            let mut t = u64_decimal(v as u64);
            push_str(&mut t, "/100");
            t
        },
        None => chars_of("N/A"),
    }
}

/// `text/100`, or `N/A` when there is no text.
pub open spec fn percent_or_na(o: Option<String>) -> Seq<char> {
    match o {
        Some(t) => t@ + "/100"@,
        None => "N/A"@,
    }
}

fn percent_or_na_exec(o: &Option<String>) -> (r: Vec<char>)
    ensures
        r@ == percent_or_na(*o),
{
    match o {
        Some(t) => {
            let mut v = chars_of(t.as_str());
            push_str(&mut v, "/100");
            v
        },
        None => chars_of("N/A"),
    }
}

/// The given reason unless absent or blank, else `default`.
pub open spec fn final_result_of(reason: Option<String>, default: Seq<char>) -> Seq<char> {
    match reason {
        Some(s) => if trim(s@).len() > 0 {
            s@
        } else {
            default
        },
        None => default,
    }
}

fn final_result_exec<'a>(reason: &'a Option<String>, default: &'a str) -> (r: &'a str)
    ensures
        r@ == final_result_of(*reason, default@),
{
    match reason {
        Some(s) => if trim_chars(&chars_of(s.as_str())).len() > 0 {
            s.as_str()
        } else {
            default
        },
        None => default,
    }
}

/// The channel a family's setting names, unless blank.
pub open spec fn channel_of(setting: Option<String>) -> Option<Seq<char>> {
    match setting {
        Some(s) => if trim(s@).len() > 0 {
            Some(s@)
        } else {
            None
        },
        None => None,
    }
}

/// The footer of both messages.
pub open spec fn footer_of(f: DiscordRequestFields, channel_setting: Option<String>) -> Seq<char> {
    "Candidate only | Family: "@ + family_label_of(f) + match channel_of(channel_setting) {
        Some(n) => " | Channel: "@ + n,
        None => Seq::empty(),
    } + " | Signal: "@ + or_default(f.signal_id, "N/A"@)
}

fn footer_exec(fields: &DiscordRequestFields, channel_setting: &Option<String>) -> (r: Vec<char>)
    ensures
        r@ == footer_of(*fields, *channel_setting),
{
    let mut v = chars_of("Candidate only | Family: ");
    push_str(&mut v, alert_family_label(fields));
    let ghost a = v@;
    let setting: Option<&str> = match channel_setting {
        Some(s) => Some(s.as_str()),
        None => None,
    };
    match discord_channel_name(setting) {
        Some(name) => {
            push_str(&mut v, " | Channel: ");
            push_str(&mut v, name.as_str());
        },
        None => {},
    }
    let ghost b = v@;
    push_str(&mut v, " | Signal: ");
    push_str(&mut v, or_str(&fields.signal_id, "N/A"));
    proof {
        let part = match channel_of(*channel_setting) {
            Some(n) => " | Channel: "@ + n,
            None => Seq::<char>::empty(),
        };
        assert(b =~= a + part);
        assert(v@ =~= footer_of(*fields, *channel_setting));
    }
    v
}

fn plain_field(name: &str, value: &Vec<char>, inline: bool) -> (r: DiscordEmbedField)
    ensures
        field_view(r) == (name@, value@, inline),
{
    DiscordEmbedField { name: String::from_str(name), value: string_of(value), inline }
}

// ---------------------------------------------------------------------------
// The market-structure message
// ---------------------------------------------------------------------------

/// What the market-structure message needs besides the request's own
/// fields: confidence and data quality written as whole numbers, whether
/// the extreme-impact wording applies, the citable evidence, and the raw
/// channel setting of the family.
pub struct MarketStructureFigures {
    pub confidence_text: String,
    pub data_quality_text: String,
    pub extreme_template: bool,
    pub evidence: MarketStructureEvidence,
    pub channel_setting: Option<String>,
}

pub open spec fn behavior_label(t: Seq<char>) -> Seq<char> {
    if t == "new_long_build"@ {
        "新多建仓"@
    } else if t == "new_short_build"@ {
        "新空建仓"@
    } else if t == "short_covering"@ {
        "空头回补"@
    } else if t == "long_unwind"@ {
        "多头平仓"@
    } else if t == "downside_absorption"@ {
        "下方吸收"@
    } else if t == "upside_suppression"@ {
        "上方压制"@
    } else if t == "liquidation_sweep"@ {
        "清算驱动"@
    } else {
        "普通成交流"@
    }
}

pub open spec fn behavior_state_label(s: Seq<char>) -> Seq<char> {
    if s == "confirmed"@ {
        "已确认"@
    } else if s == "provisional"@ {
        "候选"@
    } else if s == "invalidated"@ {
        "已失效"@
    } else {
        "证据不足"@
    }
}

/// A bias with its sign always written.
pub open spec fn plus_signed(v: i16) -> Seq<char> {
    if v >= 0 {
        "+"@ + int_decimal(v as int)
    } else {
        int_decimal(v as int)
    }
}

fn plus_signed_exec(v: i16) -> (r: Vec<char>)
    ensures
        r@ == plus_signed(v),
{
    let d = i64_decimal(v as i64);
    if v >= 0 {
        let mut p = chars_of("+");
        append_chars(&mut p, &d);
        p
    } else {
        d
    }
}

fn behavior_label_exec(t: &str) -> (r: &'static str)
    ensures
        r@ == behavior_label(t@),
{
    let v = chars_of(t);
    if eq_str(&v, "new_long_build") {
        "新多建仓"
    } else if eq_str(&v, "new_short_build") {
        "新空建仓"
    } else if eq_str(&v, "short_covering") {
        "空头回补"
    } else if eq_str(&v, "long_unwind") {
        "多头平仓"
    } else if eq_str(&v, "downside_absorption") {
        "下方吸收"
    } else if eq_str(&v, "upside_suppression") {
        "上方压制"
    } else if eq_str(&v, "liquidation_sweep") {
        "清算驱动"
    } else {
        "普通成交流"
    }
}

fn behavior_state_label_exec(s: &str) -> (r: &'static str)
    ensures
        r@ == behavior_state_label(s@),
{
    let v = chars_of(s);
    if eq_str(&v, "confirmed") {
        "已确认"
    } else if eq_str(&v, "provisional") {
        "候选"
    } else if eq_str(&v, "invalidated") {
        "已失效"
    } else {
        "证据不足"
    }
}

pub open spec fn structure_direction(f: DiscordRequestFields) -> NormalizedDiscordDirection {
    let bias = match f.structure_bias {
        Some(b) => b,
        None => 0i16,
    };
    if bias >= 15 {
        NormalizedDiscordDirection::Bullish
    } else if bias <= -15 {
        NormalizedDiscordDirection::Bearish
    } else {
        NormalizedDiscordDirection::Neutral
    }
}

pub open spec fn bias_label(bias: i16) -> Seq<char> {
    if bias >= 15 {
        "偏多"@
    } else if bias <= -15 {
        "偏空"@
    } else {
        "中性"@
    }
}

pub open spec fn structure_notice() -> Seq<char> {
    "主力结构 Candidate only，仅使用已通过来源验证的可用现货、合约、OI、价格响应和公开成交上下文；只做提醒，不执行下单、拦截、封禁或资金操作。"@
}

/// The fields of a market-structure message, in order.
pub open spec fn structure_fields(f: DiscordRequestFields, g: MarketStructureFigures) -> Seq<
    (Seq<char>, Seq<char>, bool),
> {
    let bias = match f.structure_bias {
        Some(b) => b,
        None => 0i16,
    };
    let regime = or_default(f.regime_type, "unclear"@);
    let main = or_zero(f.main_force_score);
    let extreme_score = or_zero(f.extreme_impact_score);
    let extreme = g.extreme_template;
    let spot = if f.server_evidence_verified && g.evidence.spot_eligible {
        f.spot_score
    } else {
        None
    };
    let final_result = final_result_of(f.reason, "暂无进一步判断"@);
    seq![
        ("类型"@, regime_label(regime), true),
        (if extreme {
            "极端冲击"@
        } else {
            "主力评分"@
        }, if extreme {
            nat_decimal(extreme_score as nat) + "/100"@
        } else {
            nat_decimal(main as nat) + "/100"@
        }, true),
        ("结构方向"@, bias_label(bias) + " "@ + plus_signed(bias), true),
        ("极端冲击"@, nat_decimal(extreme_score as nat) + "/100"@, true),
        ("冲击等级"@, match impact_level_of(f) {
            Some(l) => l,
            None => "N/A"@,
        }, true),
        ("置信度"@, g.confidence_text@ + "/100"@, true),
        ("数据质量"@, g.data_quality_text@ + "/100"@, true),
        ("现货评分"@, score_or_na(spot), true),
        ("合约评分"@, score_or_na(f.contract_score), true),
        ("现货合约确认"@, score_or_na(f.cross_confirm_score), true),
        ("通知链路"@, "主力结构异动"@, true),
        ("主力行为"@, behavior_label(or_default(f.behavior_type, "insufficient_evidence"@))
            + " · "@ + behavior_state_label(or_default(f.behavior_state, "insufficient"@))
            + " · "@ + nat_decimal(or_zero(f.behavior_confidence) as nat) + "/100"@, true),
        ("主要原因"@, bullets(
            first_n(
                structure_reason_list(f, g.evidence, structure_direction(f), regime, extreme),
                4,
            ),
        ), false),
        ("判断"@, judgment_of(regime, final_result, extreme), false),
        ("说明"@, structure_notice(), false)
    ]
}

/// The market-structure message of a request: one embed, with the title,
/// description, colour of the structure direction, the fields of
/// [`structure_fields`], the footer and the request's time.
pub open spec fn structure_payload_ok(
    r: DiscordWebhookPayload,
    fields: DiscordRequestFields,
    figures: MarketStructureFigures,
) -> bool {
    &&& r.content is None
    &&& r.embeds@.len() == 1
    &&& r.embeds@[0].title@ == if figures.extreme_template {
        "⚠️ "@ + or_default(fields.symbol, "Unknown"@) + " 极端行情冲击"@
    } else {
        "🚨 "@ + or_default(fields.symbol, "Unknown"@) + " 主力结构异动 "@ + severity_label_of(
            fields,
        )
    }
    &&& r.embeds@[0].description@ == or_default(fields.exchange, "Runtime"@) + " / "@ + or_default(
        fields.symbol,
        "Unknown"@,
    ) + " · "@ + or_default(fields.signal_type, "market_structure"@) + " · "@ + regime_label(
        or_default(fields.regime_type, "unclear"@),
    ) + " · "@ + family_label_of(fields)
    &&& r.embeds@[0].color == match structure_direction(fields) {
        NormalizedDiscordDirection::Bullish => 5_763_719u32,
        NormalizedDiscordDirection::Bearish => 15_548_997u32,
        NormalizedDiscordDirection::Neutral => 9_807_270u32,
    }
    &&& r.embeds@[0].fields@.map_values(|f: DiscordEmbedField| field_view(f)) == structure_fields(
        fields,
        figures,
    )
    &&& r.embeds@[0].footer matches Some(ft) && ft.text@ == footer_of(
        fields,
        figures.channel_setting,
    )
    &&& r.embeds@[0].timestamp == fields.time
}

/// The market-structure message of a request: title, description, colour
/// of the structure direction, the fields of [`structure_fields`], the
/// footer and the request's time.
#[verifier::rlimit(80)]
pub fn market_structure_payload(fields: &DiscordRequestFields, figures: &MarketStructureFigures) -> (r:
    DiscordWebhookPayload)
    ensures
        structure_payload_ok(r, *fields, *figures),
{
    let symbol = or_str(&fields.symbol, "Unknown");
    let event_type = or_str(&fields.signal_type, "market_structure");
    let exchange = or_str(&fields.exchange, "Runtime");
    let family = alert_family_label(fields);
    let main = or_zero_exec(fields.main_force_score);
    let extreme_score = or_zero_exec(fields.extreme_impact_score);
    let extreme = figures.extreme_template;
    let spot: Option<u8> = if fields.server_evidence_verified && figures.evidence.spot_eligible {
        fields.spot_score
    } else {
        None
    };
    let bias: i16 = match fields.structure_bias {
        Some(b) => b,
        None => 0,
    };
    let regime = or_str(&fields.regime_type, "unclear");
    let regime_text = market_structure_regime_label(regime);
    let severity = market_structure_severity_label(fields);
    let direction = market_structure_direction_from_bias(bias);
    let behavior = behavior_label_exec(or_str(&fields.behavior_type, "insufficient_evidence"));
    let state = behavior_state_label_exec(or_str(&fields.behavior_state, "insufficient"));
    let final_result = final_result_exec(&fields.reason, "暂无进一步判断");

    let mut fs: Vec<DiscordEmbedField> = Vec::new();
    fs.push(plain_field("类型", &chars_of(regime_text), true));
    let mut main_text = u64_decimal(if extreme {
        extreme_score as u64
    } else {
        main as u64
    });
    push_str(&mut main_text, "/100");
    fs.push(plain_field(if extreme {
        "极端冲击"
    } else {
        "主力评分"
    }, &main_text, true));
    let mut bias_text = chars_of(structure_bias_label(bias));
    push_str(&mut bias_text, " ");
    append_chars(&mut bias_text, &plus_signed_exec(bias));
    fs.push(plain_field("结构方向", &bias_text, true));
    let mut extreme_text = u64_decimal(extreme_score as u64);
    push_str(&mut extreme_text, "/100");
    fs.push(plain_field("极端冲击", &extreme_text, true));
    let level = match market_structure_impact_level(fields) {
        Some(l) => l,
        None => "N/A",
    };
    fs.push(plain_field("冲击等级", &chars_of(level), true));
    let mut conf = chars_of(figures.confidence_text.as_str());
    push_str(&mut conf, "/100");
    fs.push(plain_field("置信度", &conf, true));
    let mut dq = chars_of(figures.data_quality_text.as_str());
    push_str(&mut dq, "/100");
    fs.push(plain_field("数据质量", &dq, true));
    fs.push(plain_field("现货评分", &score_or_na_exec(spot), true));
    fs.push(plain_field("合约评分", &score_or_na_exec(fields.contract_score), true));
    fs.push(plain_field("现货合约确认", &score_or_na_exec(fields.cross_confirm_score), true));
    fs.push(plain_field("通知链路", &chars_of("主力结构异动"), true));
    let mut behavior_text = chars_of(behavior);
    push_str(&mut behavior_text, " · ");
    push_str(&mut behavior_text, state);
    push_str(&mut behavior_text, " · ");
    append_chars(&mut behavior_text, &u64_decimal(or_zero_exec(fields.behavior_confidence) as u64));
    push_str(&mut behavior_text, "/100");
    fs.push(plain_field("主力行为", &behavior_text, true));
    let reasons = market_structure_reasons(fields, &figures.evidence, direction, regime, extreme);
    fs.push(plain_field("主要原因", &chars_of(reasons.as_str()), false));
    let judgment = market_structure_judgment(regime, final_result, extreme);
    fs.push(plain_field("判断", &chars_of(judgment.as_str()), false));
    fs.push(
        plain_field(
            "说明",
            &chars_of(
                "主力结构 Candidate only，仅使用已通过来源验证的可用现货、合约、OI、价格响应和公开成交上下文；只做提醒，不执行下单、拦截、封禁或资金操作。",
            ),
            false,
        ),
    );
    proof {
        let target = structure_fields(*fields, *figures);
        assert(fs@.map_values(|f: DiscordEmbedField| field_view(f)) =~~= target);
    }

    let mut title: Vec<char> = if extreme {
        chars_of("⚠️ ")
    } else {
        chars_of("🚨 ")
    };
    push_str(&mut title, symbol);
    if extreme {
        push_str(&mut title, " 极端行情冲击");
    } else {
        push_str(&mut title, " 主力结构异动 ");
        push_str(&mut title, severity.as_str());
    }
    let mut description = chars_of(exchange);
    push_str(&mut description, " / ");
    push_str(&mut description, symbol);
    push_str(&mut description, " · ");
    push_str(&mut description, event_type);
    push_str(&mut description, " · ");
    push_str(&mut description, regime_text);
    push_str(&mut description, " · ");
    push_str(&mut description, family);
    let footer = footer_exec(fields, &figures.channel_setting);
    let mut embeds: Vec<DiscordEmbed> = Vec::new();
    embeds.push(
        DiscordEmbed {
            title: string_of(&title),
            description: string_of(&description),
            color: discord_embed_color_from_direction(direction),
            fields: fs,
            footer: Some(DiscordEmbedFooter { text: string_of(&footer) }),
            timestamp: match &fields.time {
                Some(t) => Some(t.clone()),
                None => None,
            },
        },
    );
    DiscordWebhookPayload { content: None, embeds }
}

// ---------------------------------------------------------------------------
// The short-term toxic-order message
// ---------------------------------------------------------------------------

/// What the short-term toxic-order message needs besides the request's own
/// fields: confidence and data quality written as whole numbers when
/// known; the line of trade-order-flow metrics and the reasons read from
/// them, present only when those metrics are authoritative; the price
/// impact written with two places when known; and the raw channel setting
/// of the family.
pub struct ShortToxicFigures {
    pub confidence_text: Option<String>,
    pub data_quality_text: Option<String>,
    pub tof_line: Option<String>,
    pub metric_reasons: Vec<String>,
    pub price_impact_text: Option<String>,
    pub channel_setting: Option<String>,
}

pub open spec fn string_views(v: Seq<String>) -> Seq<Seq<char>> {
    v.map_values(|s: String| s@)
}

/// Every reason a short-term toxic-order message could give, in order:
/// the detection itself, the metric reasons, then (when the server
/// verified the evidence) the price impact and the first two explanation
/// tags.
pub open spec fn toxic_reason_list(f: DiscordRequestFields, g: ShortToxicFigures) -> Seq<Seq<char>> {
    let verified_part = if f.server_evidence_verified {
        let price = match g.price_impact_text {
            Some(t) => seq!["价格短线冲击 "@ + t@ + "bps"@],
            None => Seq::empty(),
        };
        let tags = match f.explain_tags {
            Some(ts) => first_n(string_views(ts@), 2).map_values(|t: Seq<char>| "解释标签："@ + t),
            None => Seq::empty(),
        };
        price + tags
    } else {
        Seq::empty()
    };
    seq!["检测器识别到短线毒性候选"@] + string_views(g.metric_reasons@) + verified_part
}

fn push_chars(rs: &mut Vec<Vec<char>>, line: Vec<char>)
    ensures
        final(rs)@.map_values(|v: Vec<char>| v@) == old(rs)@.map_values(|v: Vec<char>| v@).push(
            line@,
        ),
{
    let ghost before = rs@;
    let ghost l = line@;
    rs.push(line);
    proof {
        assert(rs@.map_values(|v: Vec<char>| v@) =~= before.map_values(|v: Vec<char>| v@).push(l));
    }
}

/// The reasons of a short-term toxic-order message: the first five of
/// [`toxic_reason_list`], as bullets.
pub fn short_toxic_reasons(fields: &DiscordRequestFields, figures: &ShortToxicFigures) -> (r: String)
    ensures
        r@ == bullets(first_n(toxic_reason_list(*fields, *figures), 5)),
{
    let mut rs: Vec<Vec<char>> = Vec::new();
    push_lit(&mut rs, "检测器识别到短线毒性候选");
    let ghost head = rs@.map_values(|v: Vec<char>| v@);
    let mut i: usize = 0;
    while i < figures.metric_reasons.len()
        invariant
            i <= figures.metric_reasons@.len(),
            rs@.map_values(|v: Vec<char>| v@) == head + string_views(
                figures.metric_reasons@,
            ).take(i as int),
        decreases figures.metric_reasons.len() - i,
    {
        push_chars(&mut rs, chars_of(figures.metric_reasons[i].as_str()));
        proof {
            assert(string_views(figures.metric_reasons@).take(i + 1) =~= string_views(
                figures.metric_reasons@,
            ).take(i as int).push(figures.metric_reasons@[i as int]@));
        }
        i = i + 1;
    }
    proof {
        assert(string_views(figures.metric_reasons@).take(figures.metric_reasons@.len() as int)
            =~= string_views(figures.metric_reasons@));
    }
    let ghost mid = rs@.map_values(|v: Vec<char>| v@);
    if fields.server_evidence_verified {
        match &figures.price_impact_text {
            Some(t) => {
                let mut l = chars_of("价格短线冲击 ");
                push_str(&mut l, t.as_str());
                push_str(&mut l, "bps");
                push_chars(&mut rs, l);
            },
            None => {},
        }
        let ghost with_price = rs@.map_values(|v: Vec<char>| v@);
        match &fields.explain_tags {
            Some(tags) => {
                let n: usize = if tags.len() <= 2 {
                    tags.len()
                } else {
                    2
                };
                let ghost shown = first_n(string_views(tags@), 2).map_values(
                    |t: Seq<char>| "解释标签："@ + t,
                );
                let mut j: usize = 0;
                while j < n
                    invariant
                        n <= tags@.len(),
                        n == if tags@.len() <= 2 {
                            tags@.len()
                        } else {
                            2
                        },
                        shown == first_n(string_views(tags@), 2).map_values(
                            |t: Seq<char>| "解释标签："@ + t,
                        ),
                        shown.len() == n,
                        j <= n,
                        rs@.map_values(|v: Vec<char>| v@) == with_price + shown.take(j as int),
                    decreases n - j,
                {
                    let mut l = chars_of("解释标签：");
                    push_str(&mut l, tags[j].as_str());
                    push_chars(&mut rs, l);
                    proof {
                        assert(shown[j as int] == "解释标签："@ + tags@[j as int]@);
                        assert(shown.take(j + 1) =~= shown.take(j as int).push(shown[j as int]));
                    }
                    j = j + 1;
                }
                proof {
                    assert(shown.take(n as int) =~= shown);
                }
            },
            None => {},
        }
    }
    proof {
        let l = toxic_reason_list(*fields, *figures);
        assert(rs@.map_values(|v: Vec<char>| v@) =~= l);
    }
    let out = bullets_exec(&rs, 5);
    string_of(&out)
}

pub open spec fn toxic_notice(authoritative: bool) -> Seq<char> {
    if authoritative {
        "短线有毒订单 Candidate only，基于已验证的公开盘口 / L2 / 成交数据推断；只做提醒，不代表中长线趋势，不执行下单、拦截、封禁或资金操作。"@
    } else {
        "短线有毒订单 Candidate only，基于服务端已验证的可用候选证据；只做提醒，不代表中长线趋势，不执行下单、拦截、封禁或资金操作。"@
    }
}

pub open spec fn toxic_direction(f: DiscordRequestFields) -> NormalizedDiscordDirection {
    direction_of(opt_string_view(f.side))
}

pub open spec fn pressure_of(d: NormalizedDiscordDirection) -> Seq<char> {
    match d {
        NormalizedDiscordDirection::Bullish => "偏多"@,
        NormalizedDiscordDirection::Bearish => "偏空"@,
        NormalizedDiscordDirection::Neutral => "中性 / 不明确"@,
    }
}

pub open spec fn emoji_of(d: NormalizedDiscordDirection) -> Seq<char> {
    match d {
        NormalizedDiscordDirection::Bullish => "🟢"@,
        NormalizedDiscordDirection::Bearish => "🔴"@,
        NormalizedDiscordDirection::Neutral => "🟡"@,
    }
}

/// The fields of a short-term toxic-order message, in order.
pub open spec fn toxic_fields(f: DiscordRequestFields, g: ShortToxicFigures) -> Seq<
    (Seq<char>, Seq<char>, bool),
> {
    let head = seq![
        ("类型"@, type_label_of(f), true),
        ("短线压力"@, pressure_of(toxic_direction(f)), true),
        ("窗口"@, "1s / 5s / 15s / 60s"@, true),
        ("毒性评分"@, score_or_na(f.score), true),
        ("置信度"@, percent_or_na(g.confidence_text), true),
        ("数据质量"@, percent_or_na(g.data_quality_text), true),
        ("通知链路"@, "短线有毒订单"@, true)
    ];
    let with_candidate = match f.candidate_type {
        Some(c) => if trim(c@).len() > 0 {
            head.push(("候选类型"@, c@, true))
        } else {
            head
        },
        None => head,
    };
    let with_tof = match g.tof_line {
        Some(l) => with_candidate.push(("TOF 指标"@, l@, false)),
        None => with_candidate,
    };
    with_tof + seq![
        ("原因"@, bullets(first_n(toxic_reason_list(f, g), 5)), false),
        ("最终结果"@, trim_end_matches(final_result_of(f.reason, "无法判断方向"@), "。"@)
            + "；短线毒性风险升高，不代表中长线趋势。"@, false),
        ("说明"@, toxic_notice(g.tof_line is Some), false)
    ]
}

/// The short-term toxic-order message of a request: one embed, with the
/// title, description, colour of the side's direction, the fields of
/// [`toxic_fields`], the footer and the request's time.
pub open spec fn toxic_payload_ok(
    r: DiscordWebhookPayload,
    fields: DiscordRequestFields,
    figures: ShortToxicFigures,
) -> bool {
    &&& r.content is None
    &&& r.embeds@.len() == 1
    &&& r.embeds@[0].title@ == emoji_of(toxic_direction(fields)) + " "@ + or_default(
        fields.symbol,
        "Unknown"@,
    ) + " 短线有毒订单 "@ + or_default(fields.level, "High"@)
    &&& r.embeds@[0].description@ == or_default(fields.exchange, "N/A"@) + " / "@ + or_default(
        fields.symbol,
        "Unknown"@,
    ) + " · "@ + or_default(fields.signal_type, "Unknown"@) + " · "@ + or_default(
        fields.side,
        "N/A"@,
    ) + " · "@ + family_label_of(fields)
    &&& r.embeds@[0].color == match toxic_direction(fields) {
        NormalizedDiscordDirection::Bullish => 5_763_719u32,
        NormalizedDiscordDirection::Bearish => 15_548_997u32,
        NormalizedDiscordDirection::Neutral => 9_807_270u32,
    }
    &&& r.embeds@[0].fields@.map_values(|f: DiscordEmbedField| field_view(f)) == toxic_fields(
        fields,
        figures,
    )
    &&& r.embeds@[0].footer matches Some(ft) && ft.text@ == footer_of(
        fields,
        figures.channel_setting,
    )
    &&& r.embeds@[0].timestamp == fields.time
}

/// The short-term toxic-order message of a request: title, description,
/// colour of the side's direction, the fields of [`toxic_fields`], the
/// footer and the request's time.
#[verifier::rlimit(80)]
pub fn short_toxic_payload(fields: &DiscordRequestFields, figures: &ShortToxicFigures) -> (r:
    DiscordWebhookPayload)
    ensures
        toxic_payload_ok(r, *fields, *figures),
{
    let symbol = or_str(&fields.symbol, "Unknown");
    let event_type = or_str(&fields.signal_type, "Unknown");
    let side = or_str(&fields.side, "N/A");
    let exchange = or_str(&fields.exchange, "N/A");
    let side_opt: Option<&str> = match &fields.side {
        Some(s) => Some(s.as_str()),
        None => None,
    };
    let direction = normalize_signal_direction(side_opt);
    let level = or_str(&fields.level, "High");
    let family = alert_family_label(fields);
    let final_result = final_result_exec(&fields.reason, "无法判断方向");

    let mut fs: Vec<DiscordEmbedField> = Vec::new();
    fs.push(plain_field("类型", &chars_of(short_toxic_type_label(fields, direction)), true));
    fs.push(plain_field("短线压力", &chars_of(short_pressure_label(direction)), true));
    fs.push(plain_field("窗口", &chars_of("1s / 5s / 15s / 60s"), true));
    fs.push(plain_field("毒性评分", &score_or_na_exec(fields.score), true));
    fs.push(plain_field("置信度", &percent_or_na_exec(&figures.confidence_text), true));
    fs.push(plain_field("数据质量", &percent_or_na_exec(&figures.data_quality_text), true));
    fs.push(plain_field("通知链路", &chars_of("短线有毒订单"), true));
    let ghost head = fs@.map_values(|f: DiscordEmbedField| field_view(f));
    match &fields.candidate_type {
        Some(c) => if trim_chars(&chars_of(c.as_str())).len() > 0 {
            fs.push(plain_field("候选类型", &chars_of(c.as_str()), true));
        },
        None => {},
    }
    let ghost with_candidate = fs@.map_values(|f: DiscordEmbedField| field_view(f));
    match &figures.tof_line {
        Some(l) => {
            fs.push(plain_field("TOF 指标", &chars_of(l.as_str()), false));
        },
        None => {},
    }
    let ghost with_tof = fs@.map_values(|f: DiscordEmbedField| field_view(f));
    let reasons = short_toxic_reasons(fields, figures);
    fs.push(plain_field("原因", &chars_of(reasons.as_str()), false));
    let mut result_text = trim_end_matches_str(&chars_of(final_result), "。");
    push_str(&mut result_text, "；短线毒性风险升高，不代表中长线趋势。");
    fs.push(plain_field("最终结果", &result_text, false));
    let notice: &str = match &figures.tof_line {
        Some(_) => "短线有毒订单 Candidate only，基于已验证的公开盘口 / L2 / 成交数据推断；只做提醒，不代表中长线趋势，不执行下单、拦截、封禁或资金操作。",
        None => "短线有毒订单 Candidate only，基于服务端已验证的可用候选证据；只做提醒，不代表中长线趋势，不执行下单、拦截、封禁或资金操作。",
    };
    fs.push(plain_field("说明", &chars_of(notice), false));
    proof {
        let h = seq![
            ("类型"@, type_label_of(*fields), true),
            ("短线压力"@, pressure_of(toxic_direction(*fields)), true),
            ("窗口"@, "1s / 5s / 15s / 60s"@, true),
            ("毒性评分"@, score_or_na(fields.score), true),
            ("置信度"@, percent_or_na(figures.confidence_text), true),
            ("数据质量"@, percent_or_na(figures.data_quality_text), true),
            ("通知链路"@, "短线有毒订单"@, true)
        ];
        assert(head =~~= h);
        let wc = match &fields.candidate_type {
            Some(c) => if trim(c@).len() > 0 {
                h.push(("候选类型"@, c@, true))
            } else {
                h
            },
            None => h,
        };
        assert(with_candidate =~~= wc);
        let wt = match &figures.tof_line {
            Some(l) => wc.push(("TOF 指标"@, l@, false)),
            None => wc,
        };
        assert(with_tof =~~= wt);
        assert(fs@.map_values(|f: DiscordEmbedField| field_view(f)) =~~= toxic_fields(
            *fields,
            *figures,
        ));
    }

    let mut title = chars_of(discord_direction_emoji(direction));
    push_str(&mut title, " ");
    push_str(&mut title, symbol);
    push_str(&mut title, " 短线有毒订单 ");
    push_str(&mut title, level);
    let mut description = chars_of(exchange);
    push_str(&mut description, " / ");
    push_str(&mut description, symbol);
    push_str(&mut description, " · ");
    push_str(&mut description, event_type);
    push_str(&mut description, " · ");
    push_str(&mut description, side);
    push_str(&mut description, " · ");
    push_str(&mut description, family);
    let footer = footer_exec(fields, &figures.channel_setting);
    let mut embeds: Vec<DiscordEmbed> = Vec::new();
    embeds.push(
        DiscordEmbed {
            title: string_of(&title),
            description: string_of(&description),
            color: discord_embed_color_from_direction(direction),
            fields: fs,
            footer: Some(DiscordEmbedFooter { text: string_of(&footer) }),
            timestamp: match &fields.time {
                Some(t) => Some(t.clone()),
                None => None,
            },
        },
    );
    DiscordWebhookPayload { content: None, embeds }
}

// ---------------------------------------------------------------------------
// Choosing the message
// ---------------------------------------------------------------------------

pub open spec fn test_message() -> Seq<char> {
    "TEST MESSAGE / 测试消息: toxic-order-monitor Discord proxy is reachable."@
}

/// The message of a request: a fixed text for a test request, else the
/// message of its family, market structure or short-term toxic order.
pub fn discord_payload(
    fields: &DiscordRequestFields,
    structure: &MarketStructureFigures,
    toxic: &ShortToxicFigures,
) -> (r: DiscordWebhookPayload)
    ensures
        fields.test == Some(true) ==> (r.content matches Some(c) && c@ == test_message()),
        fields.test == Some(true) ==> r.embeds@.len() == 0,
        fields.test != Some(true) && crate::discord::family_of(*fields) == "MARKET_STRUCTURE"@
            ==> structure_payload_ok(r, *fields, *structure),
        fields.test != Some(true) && crate::discord::family_of(*fields) != "MARKET_STRUCTURE"@
            ==> toxic_payload_ok(r, *fields, *toxic),
{
    let is_test = match fields.test {
        Some(t) => t,
        None => false,
    };
    if is_test {
        return DiscordWebhookPayload {
            content: Some(
                String::from_str(
                    "TEST MESSAGE / 测试消息: toxic-order-monitor Discord proxy is reachable.",
                ),
            ),
            embeds: Vec::new(),
        };
    }
    let family = crate::discord::alert_family(fields);
    if eq_str(&chars_of(family), "MARKET_STRUCTURE") {
        market_structure_payload(fields, structure)
    } else {
        short_toxic_payload(fields, toxic)
    }
}

} // verus!
