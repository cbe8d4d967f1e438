//! The alert filter of Discord pushes: which requests may be delivered, and
//! the first reason a refused one is refused for.
//!
//! Confidence and data quality are floating point; the caller compares them
//! with their thresholds and checks their range, and hands the outcomes in.
use vstd::prelude::*;

use crate::discord::{
    alert_family, behavior_allows, behavior_lane_allows_push, behavior_lane_is_present,
    family_of, impact_level_of, market_structure_impact_level_score, or_zero, severity_allowed,
    severity_allows, DiscordAlertMode, DiscordRequestFields,
};
use crate::hydrate::{market_structure_evidence_is_valid, score_ok, structure_evidence_valid};
use crate::text::{append_chars, chars_of, eq_str, nat_decimal, push_str, string_of, u64_decimal};

verus! {

/// The integer thresholds of a family's alert filter.
#[derive(Clone, Copy)]
pub struct GateThresholds {
    pub min_score: u8,
    pub min_extreme_score: u8,
}

/// The caller's findings on the floating-point measures of a request, read
/// from the family's own sources: whether confidence and data quality are
/// finite and within 0..=100, and whether each reaches its threshold.
#[derive(Clone, Copy)]
pub struct GateMeasures {
    pub figures_valid: bool,
    pub confidence_ok: bool,
    pub data_quality_ok: bool,
}

/// The outcome of the alert filter: whether the push may go, why not, and
/// the facts it reports.
pub struct GateOutcome {
    pub allowed: bool,
    pub reason: &'static str,
    pub severity_allowed: bool,
    pub score: u8,
}

/// What makes a market-structure request alert-worthy.
#[derive(Clone, Copy, PartialEq, Eq, Structural, Debug)]
pub enum MarketStructureTrigger {
    MainForce,
    ExtremeImpact,
    ImpactLevel,
}

pub open spec fn level_view(f: DiscordRequestFields) -> Option<Seq<char>> {
    match f.level {
        Some(s) => Some(s@),
        None => None,
    }
}

pub open spec fn is_auto(mode: DiscordAlertMode) -> bool {
    mode == DiscordAlertMode::Auto
}

pub open spec fn is_preview(mode: DiscordAlertMode) -> bool {
    mode == DiscordAlertMode::Preview
}

/// The reason a short-term toxic-order request is refused for, or
/// `passed`: the first failing of evidence, validity, auto switch,
/// severity, score, confidence, data quality, dry run and webhook.
pub open spec fn short_toxic_reason(
    f: DiscordRequestFields,
    t: GateThresholds,
    m: GateMeasures,
    mode: DiscordAlertMode,
    auto_push_enabled: bool,
    dry_run: bool,
    configured: bool,
) -> Seq<char> {
    if !f.server_evidence_verified {
        "authoritative_evidence_unavailable"@
    } else if !(score_ok(f.score) && m.figures_valid) {
        "invalid_authoritative_evidence"@
    } else if is_auto(mode) && !auto_push_enabled {
        "auto_disabled"@
    } else if !severity_allowed(level_view(f)) {
        "non_high_risk"@
    } else if or_zero(f.score) < t.min_score {
        "score_below_threshold"@
    } else if !m.confidence_ok {
        "confidence_below_threshold"@
    } else if !m.data_quality_ok {
        "data_quality_below_threshold"@
    } else if dry_run && !is_preview(mode) {
        "dry_run"@
    } else if !configured && !is_preview(mode) {
        "webhook_missing"@
    } else {
        "passed"@
    }
}

/// The alert filter of a short-term toxic-order request.
pub fn evaluate_short_toxic_gate(
    fields: &DiscordRequestFields,
    thresholds: GateThresholds,
    measures: GateMeasures,
    mode: DiscordAlertMode,
    auto_push_enabled: bool,
    dry_run: bool,
    configured: bool,
) -> (r: GateOutcome)
    ensures
        r.reason@ == short_toxic_reason(
            *fields,
            thresholds,
            measures,
            mode,
            auto_push_enabled,
            dry_run,
            configured,
        ),
        r.allowed == (r.reason@ == "passed"@),
        r.severity_allowed == severity_allowed(level_view(*fields)),
        r.score == or_zero(fields.score),
{
    let level: Option<&str> = match &fields.level {
        Some(s) => Some(s.as_str()),
        None => None,
    };
    let sev = severity_allows(level);
    let score = match fields.score {
        Some(s) => s,
        None => 0,
    };
    let score_valid = match fields.score {
        Some(s) => s <= 100,
        None => true,
    };
    let reason: &'static str = if !fields.server_evidence_verified {
        "authoritative_evidence_unavailable"
    } else if !(score_valid && measures.figures_valid) {
        "invalid_authoritative_evidence"
    } else if mode == DiscordAlertMode::Auto && !auto_push_enabled {
        "auto_disabled"
    } else if !sev {
        "non_high_risk"
    } else if score < thresholds.min_score {
        "score_below_threshold"
    } else if !measures.confidence_ok {
        "confidence_below_threshold"
    } else if !measures.data_quality_ok {
        "data_quality_below_threshold"
    } else if dry_run && mode != DiscordAlertMode::Preview {
        "dry_run"
    } else if !configured && mode != DiscordAlertMode::Preview {
        "webhook_missing"
    } else {
        "passed"
    };
    proof {
        reveal_strlit("passed");
        reveal_strlit("authoritative_evidence_unavailable");
        reveal_strlit("invalid_authoritative_evidence");
        reveal_strlit("auto_disabled");
        reveal_strlit("non_high_risk");
        reveal_strlit("score_below_threshold");
        reveal_strlit("confidence_below_threshold");
        reveal_strlit("data_quality_below_threshold");
        reveal_strlit("dry_run");
        reveal_strlit("webhook_missing");
    }
    GateOutcome {
        allowed: reason_is_passed(reason),
        reason,
        severity_allowed: sev,
        score,
    }
}

fn reason_is_passed(reason: &str) -> (r: bool)
    ensures
        r == (reason@ == "passed"@),
{
    eq_str(&chars_of(reason), "passed")
}

/// What makes a market-structure request alert-worthy, if anything: valid
/// evidence of sufficient data quality, then a confirmed main force of
/// sufficient score and confidence, else an extreme impact, else an impact
/// level.
pub open spec fn trigger_of(f: DiscordRequestFields, t: GateThresholds, m: GateMeasures) -> Option<
    MarketStructureTrigger,
> {
    if !structure_evidence_valid(f, m.figures_valid) {
        None
    } else if !m.data_quality_ok {
        None
    } else if or_zero(f.main_force_score) >= t.min_score && m.confidence_ok
        && f.main_force_confirmed == Some(true) {
        Some(MarketStructureTrigger::MainForce)
    } else if or_zero(f.extreme_impact_score) >= t.min_extreme_score {
        Some(MarketStructureTrigger::ExtremeImpact)
    } else if impact_level_of(f) is Some {
        Some(MarketStructureTrigger::ImpactLevel)
    } else {
        None
    }
}

pub fn market_structure_trigger(
    fields: &DiscordRequestFields,
    thresholds: GateThresholds,
    measures: GateMeasures,
) -> (r: Option<MarketStructureTrigger>)
    ensures
        r == trigger_of(*fields, thresholds, measures),
{
    if !market_structure_evidence_is_valid(fields, measures.figures_valid) {
        return None;
    }
    if !measures.data_quality_ok {
        return None;
    }
    let main = match fields.main_force_score {
        Some(v) => v,
        None => 0,
    };
    let extreme = match fields.extreme_impact_score {
        Some(v) => v,
        None => 0,
    };
    if main >= thresholds.min_score && measures.confidence_ok && fields.main_force_confirmed == Some(
        true,
    ) {
        return Some(MarketStructureTrigger::MainForce);
    }
    if extreme >= thresholds.min_extreme_score {
        return Some(MarketStructureTrigger::ExtremeImpact);
    }
    if market_structure_impact_level_score(fields).is_some() {
        return Some(MarketStructureTrigger::ImpactLevel);
    }
    None
}

/// Why a market-structure request without a trigger is refused.
pub open spec fn structure_rejection_of(f: DiscordRequestFields, t: GateThresholds, m: GateMeasures) -> Seq<
    char,
> {
    let main = or_zero(f.main_force_score);
    if !m.data_quality_ok {
        "data_quality_below_threshold"@
    } else if main >= t.min_score && m.confidence_ok && f.main_force_confirmed != Some(true) {
        "main_force_not_confirmed"@
    } else if main >= t.min_score && !m.confidence_ok {
        "confidence_below_threshold"@
    } else {
        "score_below_threshold"@
    }
}

fn market_structure_rejection_reason(
    fields: &DiscordRequestFields,
    thresholds: GateThresholds,
    measures: GateMeasures,
) -> (r: &'static str)
    ensures
        r@ == structure_rejection_of(*fields, thresholds, measures),
{
    let main = match fields.main_force_score {
        Some(v) => v,
        None => 0,
    };
    if !measures.data_quality_ok {
        "data_quality_below_threshold"
    } else if main >= thresholds.min_score && measures.confidence_ok
        && fields.main_force_confirmed != Some(true) {
        "main_force_not_confirmed"
    } else if main >= thresholds.min_score && !measures.confidence_ok {
        "confidence_below_threshold"
    } else {
        "score_below_threshold"
    }
}

/// The score a market-structure decision reports: that of its trigger, or
/// the larger of the main-force and extreme-impact scores.
pub open spec fn structure_score_of(f: DiscordRequestFields, trigger: Option<MarketStructureTrigger>) -> u8 {
    let main = or_zero(f.main_force_score);
    let extreme = or_zero(f.extreme_impact_score);
    match trigger {
        Some(MarketStructureTrigger::MainForce) => main,
        Some(MarketStructureTrigger::ExtremeImpact) => extreme,
        Some(MarketStructureTrigger::ImpactLevel) => match impact_level_of(f) {
            Some(l) => if l == "S"@ {
                95u8
            } else if l == "A"@ {
                85u8
            } else {
                80u8
            },
            None => 0u8,
        },
        None => if main >= extreme {
            main
        } else {
            extreme
        },
    }
}

/// The reason a market-structure request is refused for, or `passed`.
pub open spec fn structure_reason(
    f: DiscordRequestFields,
    t: GateThresholds,
    m: GateMeasures,
    mode: DiscordAlertMode,
    auto_push_enabled: bool,
    dry_run: bool,
    configured: bool,
) -> Seq<char> {
    if !f.server_evidence_verified {
        "authoritative_evidence_unavailable"@
    } else if !structure_evidence_valid(f, m.figures_valid) {
        "invalid_authoritative_evidence"@
    } else if is_auto(mode) && !auto_push_enabled {
        "auto_disabled"@
    } else if trigger_of(f, t, m) is None {
        structure_rejection_of(f, t, m)
    } else if dry_run && !is_preview(mode) {
        "dry_run"@
    } else if !configured && !is_preview(mode) {
        "webhook_missing"@
    } else {
        "passed"@
    }
}

/// The alert filter of a market-structure request.
pub fn evaluate_market_structure_gate(
    fields: &DiscordRequestFields,
    thresholds: GateThresholds,
    measures: GateMeasures,
    mode: DiscordAlertMode,
    auto_push_enabled: bool,
    dry_run: bool,
    configured: bool,
) -> (r: GateOutcome)
    ensures
        r.reason@ == structure_reason(
            *fields,
            thresholds,
            measures,
            mode,
            auto_push_enabled,
            dry_run,
            configured,
        ),
        r.allowed == (r.reason@ == "passed"@),
        r.severity_allowed,
        r.score == structure_score_of(*fields, trigger_of(*fields, thresholds, measures)),
{
    let valid = market_structure_evidence_is_valid(fields, measures.figures_valid);
    let trigger = if valid {
        market_structure_trigger(fields, thresholds, measures)
    } else {
        None
    };
    let main = match fields.main_force_score {
        Some(v) => v,
        None => 0,
    };
    let extreme = match fields.extreme_impact_score {
        Some(v) => v,
        None => 0,
    };
    let score: u8 = match trigger {
        Some(MarketStructureTrigger::MainForce) => main,
        Some(MarketStructureTrigger::ExtremeImpact) => extreme,
        Some(MarketStructureTrigger::ImpactLevel) => match market_structure_impact_level_score(
            fields,
        ) {
            Some(v) => v,
            None => 0,
        },
        None => if main >= extreme {
            main
        } else {
            extreme
        },
    };
    let reason: &'static str = if !fields.server_evidence_verified {
        "authoritative_evidence_unavailable"
    } else if !valid {
        "invalid_authoritative_evidence"
    } else if mode == DiscordAlertMode::Auto && !auto_push_enabled {
        "auto_disabled"
    } else if trigger.is_none() {
        market_structure_rejection_reason(fields, thresholds, measures)
    } else if dry_run && mode != DiscordAlertMode::Preview {
        "dry_run"
    } else if !configured && mode != DiscordAlertMode::Preview {
        "webhook_missing"
    } else {
        "passed"
    };
    proof {
        reveal_strlit("passed");
        reveal_strlit("authoritative_evidence_unavailable");
        reveal_strlit("invalid_authoritative_evidence");
        reveal_strlit("auto_disabled");
        reveal_strlit("data_quality_below_threshold");
        reveal_strlit("main_force_not_confirmed");
        reveal_strlit("confidence_below_threshold");
        reveal_strlit("score_below_threshold");
        reveal_strlit("dry_run");
        reveal_strlit("webhook_missing");
    }
    GateOutcome { allowed: reason_is_passed(reason), reason, severity_allowed: true, score }
}

/// The score a behaviour refusal reports: the main-force score, else the
/// request's score, else zero.
pub open spec fn behavior_score_of(f: DiscordRequestFields) -> u8 {
    match f.main_force_score {
        Some(v) => v,
        None => or_zero(f.score),
    }
}

/// The alert filter of a request: a request of either family that carries
/// a behaviour lane the lane does not let through is refused as
/// `behavior_not_confirmed` (except in preview); otherwise the family's
/// own filter decides.
pub fn evaluate_discord_alert_gate(
    fields: &DiscordRequestFields,
    thresholds: GateThresholds,
    measures: GateMeasures,
    mode: DiscordAlertMode,
    auto_push_enabled: bool,
    dry_run: bool,
    configured: bool,
) -> (r: GateOutcome)
    ensures
        ({
            let structure = family_of(*fields) == "MARKET_STRUCTURE"@;
            let lane = fields.behavior_type is Some || fields.behavior_state is Some
                || fields.behavior_main_force_confirmed is Some;
            if !is_preview(mode) && lane && !behavior_allows(*fields) {
                &&& !r.allowed
                &&& r.reason@ == "behavior_not_confirmed"@
                &&& r.severity_allowed == severity_allowed(level_view(*fields))
                &&& r.score == behavior_score_of(*fields)
            } else if structure {
                &&& r.reason@ == structure_reason(
                    *fields,
                    thresholds,
                    measures,
                    mode,
                    auto_push_enabled,
                    dry_run,
                    configured,
                )
                &&& r.allowed == (r.reason@ == "passed"@)
                &&& r.score == structure_score_of(*fields, trigger_of(*fields, thresholds, measures))
            } else {
                &&& r.reason@ == short_toxic_reason(
                    *fields,
                    thresholds,
                    measures,
                    mode,
                    auto_push_enabled,
                    dry_run,
                    configured,
                )
                &&& r.allowed == (r.reason@ == "passed"@)
                &&& r.score == or_zero(fields.score)
            }
        }),
{
    let family = alert_family(fields);
    let structure = eq_str(&chars_of(family), "MARKET_STRUCTURE");
    if mode != DiscordAlertMode::Preview && behavior_lane_is_present(fields)
        && !behavior_lane_allows_push(fields) {
        let level: Option<&str> = match &fields.level {
            Some(s) => Some(s.as_str()),
            None => None,
        };
        let score = match fields.main_force_score {
            Some(v) => v,
            None => match fields.score {
                Some(s) => s,
                None => 0,
            },
        };
        proof {
            reveal_strlit("behavior_not_confirmed");
        }
        return GateOutcome {
            allowed: false,
            reason: "behavior_not_confirmed",
            severity_allowed: severity_allows(level),
            score,
        };
    }
    if structure {
        evaluate_market_structure_gate(
            fields,
            thresholds,
            measures,
            mode,
            auto_push_enabled,
            dry_run,
            configured,
        )
    } else {
        evaluate_short_toxic_gate(
            fields,
            thresholds,
            measures,
            mode,
            auto_push_enabled,
            dry_run,
            configured,
        )
    }
}

/// The family a request is best routed to: market structure when it
/// carries a behaviour lane or has a market-structure trigger, else the
/// short-term toxic order.
pub fn preferred_discord_alert_family(
    fields: &DiscordRequestFields,
    thresholds: GateThresholds,
    measures: GateMeasures,
) -> (r: &'static str)
    ensures
        r@ == if fields.behavior_type is Some || fields.behavior_state is Some
            || fields.behavior_main_force_confirmed is Some || trigger_of(
            *fields,
            thresholds,
            measures,
        ) is Some {
            "market_structure"@
        } else {
            "short_toxic_order"@
        },
{
    if behavior_lane_is_present(fields) {
        return "market_structure";
    }
    if market_structure_trigger(fields, thresholds, measures).is_some() {
        "market_structure"
    } else {
        "short_toxic_order"
    }
}

/// Whether a market-structure message takes the extreme-impact wording:
/// its trigger is an extreme impact or an impact level, and the main force
/// is below the score threshold or expressly not confirmed.
pub fn structure_extreme_template(
    fields: &DiscordRequestFields,
    thresholds: GateThresholds,
    measures: GateMeasures,
) -> (r: bool)
    ensures
        r == ((trigger_of(*fields, thresholds, measures) == Some(MarketStructureTrigger::ExtremeImpact)
            || trigger_of(*fields, thresholds, measures) == Some(
            MarketStructureTrigger::ImpactLevel,
        )) && (or_zero(fields.main_force_score) < thresholds.min_score
            || fields.main_force_confirmed == Some(false))),
{
    let t = market_structure_trigger(fields, thresholds, measures);
    let impact = match t {
        Some(MarketStructureTrigger::ExtremeImpact) => true,
        Some(MarketStructureTrigger::ImpactLevel) => true,
        _ => false,
    };
    let main = match fields.main_force_score {
        Some(v) => v,
        None => 0,
    };
    impact && (main < thresholds.min_score || fields.main_force_confirmed == Some(false))
}

/// What each trigger of a market-structure request rests on: any trigger
/// needs valid evidence of sufficient data quality; a main-force trigger
/// needs a confirmed main force whose score and confidence both reach their
/// thresholds; an extreme-impact trigger an extreme score reaching its
/// threshold; an impact-level trigger an impact level. Valid evidence of
/// sufficient quality with any of these is triggered.
pub proof fn law_structure_trigger_grounds(f: DiscordRequestFields, t: GateThresholds, m: GateMeasures)
    ensures
        trigger_of(f, t, m) is Some ==> structure_evidence_valid(f, m.figures_valid)
            && m.data_quality_ok,
        trigger_of(f, t, m) == Some(MarketStructureTrigger::MainForce) ==> m.confidence_ok
            && or_zero(f.main_force_score) >= t.min_score && f.main_force_confirmed == Some(true),
        trigger_of(f, t, m) == Some(MarketStructureTrigger::ExtremeImpact) ==> or_zero(
            f.extreme_impact_score,
        ) >= t.min_extreme_score,
        trigger_of(f, t, m) == Some(MarketStructureTrigger::ImpactLevel) ==> impact_level_of(f) is Some,
        structure_evidence_valid(f, m.figures_valid) && m.data_quality_ok && ((or_zero(
            f.main_force_score,
        ) >= t.min_score && m.confidence_ok && f.main_force_confirmed == Some(true)) || or_zero(
            f.extreme_impact_score,
        ) >= t.min_extreme_score || impact_level_of(f) is Some) ==> trigger_of(f, t, m) is Some,
{
}

/// A market-structure request is let through only with a trigger; and a
/// verified, valid request of sufficient data quality whose main-force
/// score reaches its threshold but whose confidence does not, with no
/// extreme score reaching its threshold and no impact level, is refused as
/// `confidence_below_threshold` (where automatic pushes are not switched
/// off), whatever the delivery settings.
pub proof fn law_structure_confidence_gates_main_force(
    f: DiscordRequestFields,
    t: GateThresholds,
    m: GateMeasures,
    mode: DiscordAlertMode,
    auto_push_enabled: bool,
    dry_run: bool,
    configured: bool,
)
    ensures
        structure_reason(f, t, m, mode, auto_push_enabled, dry_run, configured) == "passed"@
            ==> trigger_of(f, t, m) is Some,
        f.server_evidence_verified && structure_evidence_valid(f, m.figures_valid) && (!is_auto(
            mode,
        ) || auto_push_enabled) && m.data_quality_ok && !m.confidence_ok && or_zero(
            f.main_force_score,
        ) >= t.min_score && or_zero(f.extreme_impact_score) < t.min_extreme_score
            && impact_level_of(f) is None ==> structure_reason(
            f,
            t,
            m,
            mode,
            auto_push_enabled,
            dry_run,
            configured,
        ) == "confidence_below_threshold"@,
{
    reveal_strlit("passed");
    reveal_strlit("data_quality_below_threshold");
    reveal_strlit("main_force_not_confirmed");
    reveal_strlit("confidence_below_threshold");
    reveal_strlit("score_below_threshold");
    reveal_strlit("authoritative_evidence_unavailable");
    reveal_strlit("invalid_authoritative_evidence");
    reveal_strlit("auto_disabled");
    assert("passed"@[0] != "data_quality_below_threshold"@[0]);
    assert("passed"@[0] != "main_force_not_confirmed"@[0]);
    assert("passed"@[0] != "confidence_below_threshold"@[0]);
    assert("passed"@[0] != "score_below_threshold"@[0]);
    assert("passed"@[0] != "authoritative_evidence_unavailable"@[0]);
    assert("passed"@[0] != "invalid_authoritative_evidence"@[0]);
    assert("passed"@[0] != "auto_disabled"@[0]);
}

/// When each family's filter lets a request through: a short-term
/// toxic-order request needs verified, valid evidence, automatic pushes on
/// (in auto mode), a high-risk level, a score reaching the minimum, and
/// confidence and data quality that reach theirs; a market-structure
/// request needs verified, valid evidence, automatic pushes on (in auto
/// mode) and a trigger. Outside preview both also need delivery on: no dry
/// run and a configured webhook.
pub proof fn law_gate_passes_exactly(
    f: DiscordRequestFields,
    t: GateThresholds,
    m: GateMeasures,
    mode: DiscordAlertMode,
    auto_push_enabled: bool,
    dry_run: bool,
    configured: bool,
)
    ensures
        (short_toxic_reason(f, t, m, mode, auto_push_enabled, dry_run, configured) == "passed"@)
            <==> (f.server_evidence_verified && score_ok(f.score) && m.figures_valid && (!is_auto(
            mode,
        ) || auto_push_enabled) && severity_allowed(level_view(f)) && or_zero(f.score)
            >= t.min_score && m.confidence_ok && m.data_quality_ok && (is_preview(mode) || (
        !dry_run && configured))),
        (structure_reason(f, t, m, mode, auto_push_enabled, dry_run, configured) == "passed"@)
            <==> (f.server_evidence_verified && structure_evidence_valid(f, m.figures_valid) && (
        !is_auto(mode) || auto_push_enabled) && trigger_of(f, t, m) is Some && (is_preview(mode) || (
        !dry_run && configured))),
{
    reveal_strlit("passed");
    reveal_strlit("authoritative_evidence_unavailable");
    reveal_strlit("invalid_authoritative_evidence");
    reveal_strlit("auto_disabled");
    reveal_strlit("non_high_risk");
    reveal_strlit("score_below_threshold");
    reveal_strlit("confidence_below_threshold");
    reveal_strlit("data_quality_below_threshold");
    reveal_strlit("main_force_not_confirmed");
    reveal_strlit("dry_run");
    reveal_strlit("webhook_missing");
    let p = "passed"@;
    assert(p[0] != "authoritative_evidence_unavailable"@[0]);
    assert(p[0] != "invalid_authoritative_evidence"@[0]);
    assert(p[0] != "auto_disabled"@[0]);
    assert(p[0] != "non_high_risk"@[0]);
    assert(p[0] != "score_below_threshold"@[0]);
    assert(p[0] != "confidence_below_threshold"@[0]);
    assert(p[0] != "data_quality_below_threshold"@[0]);
    assert(p[0] != "main_force_not_confirmed"@[0]);
    assert(p[0] != "dry_run"@[0]);
    assert(p[0] != "webhook_missing"@[0]);
}

/// A preview validates the candidate only: neither dry run nor a missing
/// webhook refuses it, in either family.
pub proof fn law_preview_ignores_delivery_configuration(
    f: DiscordRequestFields,
    t: GateThresholds,
    m: GateMeasures,
    auto_push_enabled: bool,
    dry_run: bool,
    configured: bool,
)
    ensures
        short_toxic_reason(f, t, m, DiscordAlertMode::Preview, auto_push_enabled, dry_run, configured)
            == short_toxic_reason(f, t, m, DiscordAlertMode::Preview, auto_push_enabled, false, true),
        structure_reason(f, t, m, DiscordAlertMode::Preview, auto_push_enabled, dry_run, configured)
            == structure_reason(f, t, m, DiscordAlertMode::Preview, auto_push_enabled, false, true),
{
}

/// Without server-verified evidence nothing is ever let through, in any
/// mode and either family.
pub proof fn law_unverified_evidence_is_refused(
    f: DiscordRequestFields,
    t: GateThresholds,
    m: GateMeasures,
    mode: DiscordAlertMode,
    auto_push_enabled: bool,
    dry_run: bool,
    configured: bool,
)
    requires
        !f.server_evidence_verified,
    ensures
        short_toxic_reason(f, t, m, mode, auto_push_enabled, dry_run, configured)
            == "authoritative_evidence_unavailable"@,
        structure_reason(f, t, m, mode, auto_push_enabled, dry_run, configured)
            == "authoritative_evidence_unavailable"@,
{
}

/// What a log line of an alert-filter decision reports, the floating-point
/// figures written as whole numbers.
pub struct GateMessageFigures {
    pub score: u8,
    pub min_score: u8,
    pub confidence_text: String,
    pub min_confidence_text: String,
    pub data_quality_text: String,
    pub min_data_quality_text: String,
}

/// The log line of a decision with `reason`, after `prefix`.
pub open spec fn gate_message_of(prefix: Seq<char>, reason: Seq<char>, g: GateMessageFigures) -> Seq<char> {
    prefix + ": "@ + if reason == "score_below_threshold"@ {
        "toxicScore="@ + nat_decimal(g.score as nat) + " below "@ + nat_decimal(g.min_score as nat)
    } else if reason == "confidence_below_threshold"@ {
        "confidence="@ + g.confidence_text@ + " below "@ + g.min_confidence_text@
    } else if reason == "data_quality_below_threshold"@ {
        "dataQuality="@ + g.data_quality_text@ + " below "@ + g.min_data_quality_text@
    } else if reason == "non_high_risk"@ {
        "Medium/Low candidate is display-only"@
    } else if reason == "auto_disabled"@ {
        "auto push disabled"@
    } else if reason == "dry_run"@ {
        "dry run enabled"@
    } else if reason == "webhook_missing"@ {
        "Discord is not configured"@
    } else if reason == "cached_on_boot"@ {
        "cached candidate from before backend boot"@
    } else if reason == "duplicate"@ || reason == "duplicate_candidate"@ {
        "duplicate candidate"@
    } else if reason == "cooldown"@ {
        "cooldown active"@
    } else if reason == "rate_limited"@ {
        "rate limit active"@
    } else if reason == "timeout"@ {
        "timeout"@
    } else if reason == "send_failed"@ {
        "send failed"@
    } else {
        reason
    }
}

/// The log line of an alert-filter decision: the prefix, then what the
/// reason means, with the figures that decided it.
pub fn alert_gate_message(prefix: &str, reason: &str, figures: &GateMessageFigures) -> (r: String)
    ensures
        r@ == gate_message_of(prefix@, reason@, *figures),
{
    let rv = chars_of(reason);
    let mut out = chars_of(prefix);
    push_str(&mut out, ": ");
    let ghost head = out@;
    if eq_str(&rv, "score_below_threshold") {
        push_str(&mut out, "toxicScore=");
        append_chars(&mut out, &u64_decimal(figures.score as u64));
        push_str(&mut out, " below ");
        append_chars(&mut out, &u64_decimal(figures.min_score as u64));
    } else if eq_str(&rv, "confidence_below_threshold") {
        push_str(&mut out, "confidence=");
        push_str(&mut out, figures.confidence_text.as_str());
        push_str(&mut out, " below ");
        push_str(&mut out, figures.min_confidence_text.as_str());
    } else if eq_str(&rv, "data_quality_below_threshold") {
        push_str(&mut out, "dataQuality=");
        push_str(&mut out, figures.data_quality_text.as_str());
        push_str(&mut out, " below ");
        push_str(&mut out, figures.min_data_quality_text.as_str());
    } else {
        let tail: &str = if eq_str(&rv, "non_high_risk") {
            "Medium/Low candidate is display-only"
        } else if eq_str(&rv, "auto_disabled") {
            "auto push disabled"
        } else if eq_str(&rv, "dry_run") {
            "dry run enabled"
        } else if eq_str(&rv, "webhook_missing") {
            "Discord is not configured"
        } else if eq_str(&rv, "cached_on_boot") {
            "cached candidate from before backend boot"
        } else if eq_str(&rv, "duplicate") || eq_str(&rv, "duplicate_candidate") {
            "duplicate candidate"
        } else if eq_str(&rv, "cooldown") {
            "cooldown active"
        } else if eq_str(&rv, "rate_limited") {
            "rate limit active"
        } else if eq_str(&rv, "timeout") {
            "timeout"
        } else if eq_str(&rv, "send_failed") {
            "send failed"
        } else {
            reason
        };
        push_str(&mut out, tail);
    }
    proof {
        let t = if reason@ == "score_below_threshold"@ {
            "toxicScore="@ + nat_decimal(figures.score as nat) + " below "@ + nat_decimal(
                figures.min_score as nat,
            )
        } else if reason@ == "confidence_below_threshold"@ {
            "confidence="@ + figures.confidence_text@ + " below "@ + figures.min_confidence_text@
        } else if reason@ == "data_quality_below_threshold"@ {
            "dataQuality="@ + figures.data_quality_text@ + " below "@
                + figures.min_data_quality_text@
        } else {
            out@.subrange(head.len() as int, out@.len() as int)
        };
        assert(out@ =~= head + t);
    }
    string_of(&out)
}

} // verus!
