//! Rebuilding a push request from the server's own state: the request body
//! only names a signal and a family; everything that can sway an alert
//! filter or the wording is cleared and then refilled from the signal the
//! server holds under that name.
//!
//! The caller looks the signal up; these functions clear the request, name
//! what to look up, and copy a found signal in.
use vstd::prelude::*;

use crate::discord::{alert_family, family_of, opt_string_view, trimmed_nonempty, DiscordRequestFields};
use crate::text::{chars_of, lower, string_of, trim, trim_chars, upper, upper_chars};

verus! {

/// The request holds nothing a client could have set, except its family
/// and its test flag.
pub open spec fn cleared(f: DiscordRequestFields) -> bool {
    &&& !f.server_evidence_verified
    &&& f.signal_id is None
    &&& f.id is None
    &&& f.dedupe_key is None
    &&& f.exchange is None
    &&& f.symbol is None
    &&& f.signal_type is None
    &&& f.level is None
    &&& f.side is None
    &&& f.score is None
    &&& f.reason is None
    &&& f.impact is None
    &&& f.impact_level is None
    &&& f.time is None
    &&& f.price_range is None
    &&& f.candidate_type is None
    &&& f.explain_tags is None
    &&& f.perp_score is None
    &&& f.perp_candidate_type is None
    &&& f.final_candidate_type is None
    &&& f.metrics_direction is None
    &&& f.advanced_score is None
    &&& f.advanced_candidate_type is None
    &&& f.main_force_score is None
    &&& f.extreme_impact_score is None
    &&& f.structure_bias is None
    &&& f.market_structure_severity is None
    &&& f.behavior_type is None
    &&& f.behavior_state is None
    &&& f.behavior_confidence is None
    &&& f.behavior_main_force_confirmed is None
    &&& f.regime_type is None
    &&& f.spot_score is None
    &&& f.contract_score is None
    &&& f.cross_confirm_score is None
    &&& f.main_force_confirmed is None
    &&& f.signal_agreement is None
    &&& f.source_coverage is None
    &&& f.oi_score is None
    &&& f.liquidation_score is None
}

/// Clears every client-controlled field of a request: the evidence flag,
/// keys, labels and scores. The family and the test flag stay.
pub fn clear_client_controlled_alert_content(request: &mut DiscordRequestFields)
    ensures
        cleared(*final(request)),
        final(request).alert_family == old(request).alert_family,
        final(request).test == old(request).test,
{
    request.server_evidence_verified = false;
    request.signal_id = None;
    request.id = None;
    request.dedupe_key = None;
    request.exchange = None;
    request.symbol = None;
    request.signal_type = None;
    request.level = None;
    request.side = None;
    request.score = None;
    request.reason = None;
    request.impact = None;
    request.impact_level = None;
    request.time = None;
    request.price_range = None;
    request.candidate_type = None;
    request.explain_tags = None;
    request.perp_score = None;
    request.perp_candidate_type = None;
    request.final_candidate_type = None;
    request.metrics_direction = None;
    request.advanced_score = None;
    request.advanced_candidate_type = None;
    request.main_force_score = None;
    request.extreme_impact_score = None;
    request.structure_bias = None;
    request.market_structure_severity = None;
    request.behavior_type = None;
    request.behavior_state = None;
    request.behavior_confidence = None;
    request.behavior_main_force_confirmed = None;
    request.regime_type = None;
    request.spot_score = None;
    request.contract_score = None;
    request.cross_confirm_score = None;
    request.main_force_confirmed = None;
    request.signal_agreement = None;
    request.source_coverage = None;
    request.oi_score = None;
    request.liquidation_score = None;
}

/// What to look up for a request.
pub struct HydrationLookup {
    /// `SHORT_TOXIC` or `MARKET_STRUCTURE`.
    pub family: &'static str,
    /// The requested signal id, trimmed; absent when blank.
    pub signal_id: Option<String>,
    /// The requested symbol, trimmed and upper-cased, or the configured
    /// one when blank.
    pub symbol: String,
}

/// The family label written back into a cleared request.
pub open spec fn family_label(family: Seq<char>) -> Seq<char> {
    if family == "MARKET_STRUCTURE"@ {
        "market_structure"@
    } else {
        "short_toxic_order"@
    }
}

/// The first step of rebuilding a request: reads what to look up, clears
/// the request, and writes back the family under its lower-case name.
pub fn begin_hydration(request: &mut DiscordRequestFields, default_symbol: &str) -> (r:
    HydrationLookup)
    ensures
        r.family@ == family_of(*old(request)),
        opt_string_view(r.signal_id) == trimmed_nonempty(opt_string_view(old(request).signal_id)),
        r.symbol@ == upper(
            match trimmed_nonempty(opt_string_view(old(request).symbol)) {
                Some(s) => s,
                None => default_symbol@,
            },
        ),
        cleared(*final(request)),
        opt_string_view(final(request).alert_family) == Some(family_label(r.family@)),
        final(request).test == old(request).test,
{
    let family = alert_family(request);
    let signal_id: Option<String> = match &request.signal_id {
        Some(s) => {
            let t = trim_chars(&chars_of(s.as_str()));
            if t.len() > 0 {
                Some(string_of(&t))
            } else {
                None
            }
        },
        None => None,
    };
    let symbol_chars = match &request.symbol {
        Some(s) => {
            let t = trim_chars(&chars_of(s.as_str()));
            if t.len() > 0 {
                t
            } else {
                chars_of(default_symbol)
            }
        },
        None => chars_of(default_symbol),
    };
    let symbol = string_of(&upper_chars(&symbol_chars));
    clear_client_controlled_alert_content(request);
    let fc = chars_of(family);
    let label: &str = if crate::text::eq_str(&fc, "MARKET_STRUCTURE") {
        "market_structure"
    } else {
        "short_toxic_order"
    };
    request.alert_family = Some(String::from_str(label));
    HydrationLookup { family, signal_id, symbol }
}

/// The level word of a toxicity score: critical from 90, high from 80,
/// medium from 65, else low.
pub open spec fn toxic_level_of(score: u8) -> Seq<char> {
    if score >= 90 {
        "critical"@
    } else if score >= 80 {
        "high"@
    } else if score >= 65 {
        "medium"@
    } else {
        "low"@
    }
}

/// The order of the level words, from low to critical.
pub open spec fn level_rank(level: Seq<char>) -> int {
    if level == "critical"@ {
        3
    } else if level == "high"@ {
        2
    } else if level == "medium"@ {
        1
    } else {
        0
    }
}

/// A higher toxicity score never gives a lower level, and the level a
/// score is given counts as high-risk for the alert filter exactly from a
/// score of 80.
pub proof fn law_toxic_level_follows_score(a: u8, b: u8)
    ensures
        a <= b ==> level_rank(toxic_level_of(a)) <= level_rank(toxic_level_of(b)),
        crate::discord::severity_allowed(Some(toxic_level_of(a))) <==> a >= 80,
{
    reveal_strlit("critical");
    reveal_strlit("high");
    reveal_strlit("medium");
    reveal_strlit("low");
    reveal_strlit("a");
    reveal_strlit("s");
    crate::text::lemma_trim_noop(toxic_level_of(a));
    assert(crate::text::lower(toxic_level_of(a)) =~= toxic_level_of(a));
    assert("critical"@.len() != "high"@.len() && "critical"@.len() != "medium"@.len()
        && "high"@.len() != "medium"@.len());
    assert("low"@.len() != "high"@.len() && "low"@.len() != "critical"@.len() && "low"@.len()
        != "a"@.len() && "low"@.len() != "s"@.len());
    assert("medium"@.len() != "a"@.len() && "medium"@.len() != "s"@.len());
}

pub fn toxic_level(score: u8) -> (r: &'static str)
    ensures
        r@ == toxic_level_of(score),
{
    if score >= 90 {
        "critical"
    } else if score >= 80 {
        "high"
    } else if score >= 65 {
        "medium"
    } else {
        "low"
    }
}

/// What the server holds of a short-term toxic signal, as far as a request
/// takes it over: its id, score, symbol, formatted time, serialised kind
/// and side, evidence venue, reasons and primary reason.
pub struct ShortToxicSignalFacts {
    pub signal_id: String,
    pub toxicity_score: u8,
    pub symbol: String,
    pub time: Option<String>,
    pub signal_type: Option<String>,
    pub side: Option<String>,
    pub venue: Option<String>,
    pub reasons: Vec<String>,
    pub primary_reason: String,
}

/// Fills a request from a short-term toxic signal the server holds under
/// the requested id, and marks its evidence verified.
pub fn apply_short_toxic_signal(
    request: &mut DiscordRequestFields,
    requested_id: &str,
    s: ShortToxicSignalFacts,
)
    requires
        s.signal_id@ == requested_id@,
    ensures
        final(request).server_evidence_verified,
        opt_string_view(final(request).signal_id) == Some(requested_id@),
        opt_string_view(final(request).alert_family) == Some("short_toxic_order"@),
        final(request).signal_id == Some(s.signal_id),
        final(request).id == Some(s.signal_id),
        final(request).score == Some(s.toxicity_score),
        opt_string_view(final(request).level) == Some(toxic_level_of(s.toxicity_score)),
        final(request).symbol == Some(s.symbol),
        final(request).time == s.time,
        final(request).signal_type == s.signal_type,
        final(request).side == s.side,
        opt_string_view(final(request).exchange) == Some(
            match s.venue {
                Some(v) => v@,
                None => "Runtime"@,
            },
        ),
        final(request).candidate_type == s.signal_type,
        final(request).explain_tags == Some(s.reasons),
        final(request).reason == Some(s.primary_reason),
        final(request).test == old(request).test,
{
    request.alert_family = Some(String::from_str("short_toxic_order"));
    request.signal_id = Some(s.signal_id.clone());
    request.id = Some(s.signal_id);
    request.score = Some(s.toxicity_score);
    request.level = Some(String::from_str(toxic_level(s.toxicity_score)));
    request.symbol = Some(s.symbol);
    request.time = s.time;
    request.candidate_type = match &s.signal_type {
        Some(t) => Some(t.clone()),
        None => None,
    };
    request.signal_type = s.signal_type;
    request.side = s.side;
    request.exchange = match s.venue {
        Some(v) => Some(v),
        None => Some(String::from_str("Runtime")),
    };
    request.explain_tags = Some(s.reasons);
    request.reason = Some(s.primary_reason);
    request.server_evidence_verified = true;
}

/// What the server holds of an authoritative market-structure signal, as
/// far as a request takes it over (its measurements that are floating
/// point are copied by the caller).
pub struct MarketStructureSignalFacts {
    pub id: String,
    pub main_exchange: Option<String>,
    pub symbol: String,
    pub detector: String,
    pub severity: Option<String>,
    pub direction_label: String,
    pub risk_score: u8,
    pub core_reason: String,
    pub created_at: String,
    pub tof_eligible: bool,
    pub perp_eligible: bool,
    pub perp_score: Option<u8>,
    pub liquidation_eligible: bool,
    pub liquidation_score: Option<u8>,
    pub main_force_score: Option<u8>,
    pub extreme_impact_score: Option<u8>,
    pub structure_bias: Option<i16>,
    pub behavior_type: Option<String>,
    pub behavior_state: Option<String>,
    pub behavior_confidence: Option<u8>,
    pub behavior_main_force_confirmed: Option<bool>,
    pub regime_type: Option<String>,
    pub spot_score: Option<u8>,
    pub contract_score: Option<u8>,
    pub cross_confirm_score: Option<u8>,
    pub main_force_confirmed: Option<bool>,
    pub signal_agreement: Option<u8>,
    pub source_coverage: Option<u8>,
    pub oi_score: Option<u8>,
}

pub open spec fn score_ok(o: Option<u8>) -> bool {
    match o {
        Some(v) => v <= 100,
        None => true,
    }
}

/// The market-structure evidence of a request is whole and in range: the
/// main-force and extreme-impact scores present and at most 100, the
/// structure bias present within -100..=100, the main-force confirmation
/// present, every other score present at most 100, and (`figures_ok`) the
/// confidence and data quality present, finite and within 0..=100.
pub open spec fn structure_evidence_valid(f: DiscordRequestFields, figures_ok: bool) -> bool {
    &&& f.main_force_score matches Some(m) && m <= 100
    &&& f.extreme_impact_score matches Some(e) && e <= 100
    &&& f.structure_bias matches Some(b) && -100 <= b <= 100
    &&& f.main_force_confirmed is Some
    &&& figures_ok
    &&& score_ok(f.score)
    &&& score_ok(f.spot_score)
    &&& score_ok(f.contract_score)
    &&& score_ok(f.cross_confirm_score)
    &&& score_ok(f.signal_agreement)
    &&& score_ok(f.source_coverage)
    &&& score_ok(f.oi_score)
    &&& score_ok(f.liquidation_score)
}

fn score_ok_exec(o: Option<u8>) -> (r: bool)
    ensures
        r == score_ok(o),
{
    match o {
        Some(v) => v <= 100,
        None => true,
    }
}

/// Whether the market-structure evidence of a request is whole and in
/// range; `figures_ok` says so of its confidence and data quality.
pub fn market_structure_evidence_is_valid(fields: &DiscordRequestFields, figures_ok: bool) -> (r:
    bool)
    ensures
        r == structure_evidence_valid(*fields, figures_ok),
{
    let main_ok = match fields.main_force_score {
        Some(m) => m <= 100,
        None => false,
    };
    let extreme_ok = match fields.extreme_impact_score {
        Some(e) => e <= 100,
        None => false,
    };
    let bias_ok = match fields.structure_bias {
        Some(b) => -100 <= b && b <= 100,
        None => false,
    };
    main_ok && extreme_ok && bias_ok && fields.main_force_confirmed.is_some() && figures_ok
        && score_ok_exec(fields.score) && score_ok_exec(fields.spot_score) && score_ok_exec(
        fields.contract_score,
    ) && score_ok_exec(fields.cross_confirm_score) && score_ok_exec(fields.signal_agreement)
        && score_ok_exec(fields.source_coverage) && score_ok_exec(fields.oi_score)
        && score_ok_exec(fields.liquidation_score)
}

/// Fills a request from the authoritative market-structure signal held
/// under the requested id. The perp score comes over only with eligible
/// perp metrics, the liquidation score only with an eligible liquidation
/// lineage. When the evidence is then not valid (`figures_ok` says whether
/// its confidence and data quality are) the request is cleared again
/// (family kept); else its evidence is marked verified.
pub fn apply_market_structure_signal(
    request: &mut DiscordRequestFields,
    requested_id: &str,
    s: MarketStructureSignalFacts,
    figures_ok: bool,
) -> (r: bool)
    requires
        s.id@ == requested_id@,
    ensures
        r == final(request).server_evidence_verified,
        r ==> opt_string_view(final(request).signal_id) == Some(requested_id@),
        opt_string_view(final(request).alert_family) == Some("market_structure"@),
        final(request).test == old(request).test,
        !r ==> cleared(*final(request)),
        r ==> structure_evidence_valid(*final(request), figures_ok),
        r ==> {
            &&& final(request).server_evidence_verified
            &&& final(request).signal_id == Some(s.id)
            &&& final(request).id == Some(s.id)
            &&& final(request).exchange == s.main_exchange
            &&& final(request).symbol == Some(s.symbol)
            &&& final(request).signal_type == Some(s.detector)
            &&& final(request).level == s.severity
            &&& final(request).market_structure_severity == s.severity
            &&& final(request).side == Some(s.direction_label)
            &&& final(request).score == Some(s.risk_score)
            &&& final(request).reason == Some(s.core_reason)
            &&& final(request).time == Some(s.created_at)
            &&& final(request).perp_score == if s.perp_eligible {
                s.perp_score
            } else {
                old(request).perp_score
            }
            &&& final(request).liquidation_score == if s.liquidation_eligible {
                s.liquidation_score
            } else {
                None
            }
            &&& final(request).main_force_score == s.main_force_score
            &&& final(request).extreme_impact_score == s.extreme_impact_score
            &&& final(request).structure_bias == s.structure_bias
            &&& final(request).behavior_type == s.behavior_type
            &&& final(request).behavior_state == s.behavior_state
            &&& final(request).behavior_confidence == s.behavior_confidence
            &&& final(request).behavior_main_force_confirmed == s.behavior_main_force_confirmed
            &&& final(request).regime_type == s.regime_type
            &&& final(request).spot_score == s.spot_score
            &&& final(request).contract_score == s.contract_score
            &&& final(request).cross_confirm_score == s.cross_confirm_score
            &&& final(request).main_force_confirmed == s.main_force_confirmed
            &&& final(request).signal_agreement == s.signal_agreement
            &&& final(request).source_coverage == s.source_coverage
            &&& final(request).oi_score == s.oi_score
        },
{
    request.alert_family = Some(String::from_str("market_structure"));
    request.signal_id = Some(s.id.clone());
    request.id = Some(s.id);
    request.exchange = s.main_exchange;
    request.symbol = Some(s.symbol);
    request.signal_type = Some(s.detector);
    request.level = match &s.severity {
        Some(v) => Some(v.clone()),
        None => None,
    };
    request.market_structure_severity = s.severity;
    request.side = Some(s.direction_label);
    request.score = Some(s.risk_score);
    request.reason = Some(s.core_reason);
    request.time = Some(s.created_at);
    if s.perp_eligible {
        request.perp_score = s.perp_score;
    }
    request.main_force_score = s.main_force_score;
    request.extreme_impact_score = s.extreme_impact_score;
    request.structure_bias = s.structure_bias;
    request.behavior_type = s.behavior_type;
    request.behavior_state = s.behavior_state;
    request.behavior_confidence = s.behavior_confidence;
    request.behavior_main_force_confirmed = s.behavior_main_force_confirmed;
    request.regime_type = s.regime_type;
    request.spot_score = s.spot_score;
    request.contract_score = s.contract_score;
    request.cross_confirm_score = s.cross_confirm_score;
    request.main_force_confirmed = s.main_force_confirmed;
    request.signal_agreement = s.signal_agreement;
    request.source_coverage = s.source_coverage;
    request.oi_score = s.oi_score;
    request.liquidation_score = if s.liquidation_eligible {
        s.liquidation_score
    } else {
        None
    };
    if !market_structure_evidence_is_valid(request, figures_ok) {
        clear_client_controlled_alert_content(request);
        request.alert_family = Some(String::from_str("market_structure"));
        return false;
    }
    request.server_evidence_verified = true;
    true
}

/// A recent signal of the monitor, as the lookup reads it: its id, its
/// symbol, and whether its data quality is present, finite and within
/// 0..=100.
pub struct RecentSignalRef {
    pub signal_id: String,
    pub symbol: String,
    pub data_quality_ok: bool,
}

/// An authoritative market-structure candidate, as the lookup reads it: its
/// id, whether it may alert, and whether the contract monitor contributed.
pub struct StructureCandidateRef {
    pub id: String,
    pub alert_eligible: bool,
    pub cwm_available: bool,
}

/// The recent signal is the one asked for: the same id, the symbol the same
/// ignoring case.
pub open spec fn recent_matches(c: RecentSignalRef, id: Seq<char>, symbol: Seq<char>) -> bool {
    c.signal_id@ == id && lower(c.symbol@) == lower(symbol)
}

/// `i` is the first recent signal asked for.
pub open spec fn first_recent(cs: Seq<RecentSignalRef>, id: Seq<char>, symbol: Seq<char>, i: int) -> bool {
    &&& 0 <= i < cs.len()
    &&& recent_matches(cs[i], id, symbol)
    &&& forall|j: int| 0 <= j < i ==> !recent_matches(#[trigger] cs[j], id, symbol)
}

/// `j` is the first market-structure candidate with the id.
pub open spec fn first_structure(cs: Seq<StructureCandidateRef>, id: Seq<char>, j: int) -> bool {
    &&& 0 <= j < cs.len()
    &&& cs[j].id@ == id
    &&& forall|k: int| 0 <= k < j ==> (#[trigger] cs[k]).id@ != id
}

/// The monitor's state may stand as authority: the runtime has started and
/// its view is read-only, unmodified, for analysis only, with execution off.
pub open spec fn authoritative_runtime(
    runtime_started: bool,
    read_only: bool,
    runtime_modified: bool,
    analysis_only: bool,
    execution_enabled: bool,
) -> bool {
    runtime_started && read_only && !runtime_modified && analysis_only && !execution_enabled
}

/// Whether the monitor's state may stand as authority; see
/// `authoritative_runtime`.
pub fn runtime_is_authoritative(
    runtime_started: bool,
    read_only: bool,
    runtime_modified: bool,
    analysis_only: bool,
    execution_enabled: bool,
) -> (r: bool)
    ensures
        r == authoritative_runtime(
            runtime_started,
            read_only,
            runtime_modified,
            analysis_only,
            execution_enabled,
        ),
{
    runtime_started && read_only && !runtime_modified && analysis_only && !execution_enabled
}

/// The first recent signal with the requested (trimmed) id whose symbol is
/// the requested one ignoring case; `None` when no recent signal is.
pub fn select_authoritative_signal(
    requested_id: &str,
    requested_symbol: &str,
    candidates: &Vec<RecentSignalRef>,
) -> (r: Option<usize>)
    ensures
        match r {
            Some(i) => first_recent(candidates@, requested_id@, requested_symbol@, i as int),
            None => forall|j: int|
                0 <= j < candidates@.len() ==> !recent_matches(
                    #[trigger] candidates@[j],
                    requested_id@,
                    requested_symbol@,
                ),
        },
{
    let want = crate::text::lower_chars(&chars_of(requested_symbol));
    let mut i: usize = 0;
    while i < candidates.len()
        invariant
            i <= candidates@.len(),
            want@ == lower(requested_symbol@),
            forall|j: int|
                0 <= j < i ==> !recent_matches(
                    #[trigger] candidates@[j],
                    requested_id@,
                    requested_symbol@,
                ),
        decreases candidates.len() - i,
    {
        let c = &candidates[i];
        if crate::keyed::str_eq(c.signal_id.as_str(), requested_id) && crate::text::eq_chars(
            &crate::text::lower_chars(&chars_of(c.symbol.as_str())),
            &want,
        ) {
            return Some(i);
        }
        i = i + 1;
    }
    None
}

/// The first market-structure candidate with the requested id.
pub fn select_authoritative_structure(requested_id: &str, candidates: &Vec<StructureCandidateRef>) -> (r:
    Option<usize>)
    ensures
        match r {
            Some(j) => first_structure(candidates@, requested_id@, j as int),
            None => forall|k: int| 0 <= k < candidates@.len() ==> (#[trigger] candidates@[k]).id@ != requested_id@,
        },
{
    let mut k: usize = 0;
    while k < candidates.len()
        invariant
            k <= candidates@.len(),
            forall|m: int| 0 <= m < k ==> (#[trigger] candidates@[m]).id@ != requested_id@,
        decreases candidates.len() - k,
    {
        if crate::keyed::str_eq(candidates[k].id.as_str(), requested_id) {
            return Some(k);
        }
        k = k + 1;
    }
    None
}

/// Which held signals a request is rebuilt from.
pub enum HydrationChoice {
    /// None: the request stays cleared.
    Nothing,
    /// The short-term toxic signal at this index of the recent signals.
    ShortToxic(usize),
    /// The recent signal and the market-structure candidate at these
    /// indices.
    MarketStructure(usize, usize),
}

/// The request may be rebuilt as a short-term toxic alert from recent
/// signal `i`.
pub open spec fn short_toxic_choice(
    plan: HydrationLookup,
    authoritative: bool,
    recent: Seq<RecentSignalRef>,
    i: int,
) -> bool {
    &&& plan.family@ == "SHORT_TOXIC"@
    &&& plan.signal_id matches Some(id) && authoritative && first_recent(recent, id@, plan.symbol@, i)
    &&& recent[i].data_quality_ok
}

/// The request may be rebuilt as a market-structure alert from recent
/// signal `i` and candidate `j`.
pub open spec fn structure_choice(
    plan: HydrationLookup,
    authoritative: bool,
    recent: Seq<RecentSignalRef>,
    structure: Seq<StructureCandidateRef>,
    i: int,
    j: int,
) -> bool {
    &&& plan.family@ == "MARKET_STRUCTURE"@
    &&& plan.signal_id matches Some(id) && authoritative && first_recent(recent, id@, plan.symbol@, i)
        && first_structure(structure, id@, j)
    &&& recent[i].data_quality_ok
    &&& structure[j].alert_eligible
    &&& structure[j].cwm_available
}

/// What a cleared request (see `begin_hydration`) is rebuilt from: nothing
/// without a requested id or an authoritative runtime; else the first
/// recent signal with the id and the symbol, when its data quality is
/// sound, and for a market-structure request the first candidate with the
/// id as well, when it may alert and the contract monitor contributed.
pub fn choose_hydration(
    plan: &HydrationLookup,
    authoritative: bool,
    recent: &Vec<RecentSignalRef>,
    structure: &Vec<StructureCandidateRef>,
) -> (r: HydrationChoice)
    ensures
        r matches HydrationChoice::ShortToxic(i) ==> short_toxic_choice(
            *plan,
            authoritative,
            recent@,
            i as int,
        ),
        r matches HydrationChoice::MarketStructure(i, j) ==> structure_choice(
            *plan,
            authoritative,
            recent@,
            structure@,
            i as int,
            j as int,
        ),
        r is Nothing ==> (forall|i: int| !short_toxic_choice(*plan, authoritative, recent@, i))
            && (forall|i: int, j: int|
            !structure_choice(*plan, authoritative, recent@, structure@, i, j)),
{
    let id = match &plan.signal_id {
        Some(id) => id,
        None => return HydrationChoice::Nothing,
    };
    if !authoritative {
        return HydrationChoice::Nothing;
    }
    let i = match select_authoritative_signal(id.as_str(), plan.symbol.as_str(), recent) {
        Some(i) => i,
        None => return HydrationChoice::Nothing,
    };
    proof {
        assert forall|a: int, b: int| first_recent(recent@, id@, plan.symbol@, a) && first_recent(
            recent@,
            id@,
            plan.symbol@,
            b,
        ) implies a == b by {
            if a < b {
                assert(!recent_matches(recent@[a], id@, plan.symbol@));
            } else if b < a {
                assert(!recent_matches(recent@[b], id@, plan.symbol@));
            }
        }
    }
    if !recent[i].data_quality_ok {
        return HydrationChoice::Nothing;
    }
    let family = chars_of(plan.family);
    if crate::text::eq_str(&family, "SHORT_TOXIC") {
        proof {
            reveal_strlit("SHORT_TOXIC");
            reveal_strlit("MARKET_STRUCTURE");
            assert("SHORT_TOXIC"@.len() != "MARKET_STRUCTURE"@.len());
        }
        return HydrationChoice::ShortToxic(i);
    }
    if !crate::text::eq_str(&family, "MARKET_STRUCTURE") {
        return HydrationChoice::Nothing;
    }
    proof {
        reveal_strlit("SHORT_TOXIC");
        reveal_strlit("MARKET_STRUCTURE");
        assert("SHORT_TOXIC"@.len() != "MARKET_STRUCTURE"@.len());
    }
    let j = match select_authoritative_structure(id.as_str(), structure) {
        Some(j) => j,
        None => return HydrationChoice::Nothing,
    };
    proof {
        assert forall|a: int, b: int| first_structure(structure@, id@, a) && first_structure(
            structure@,
            id@,
            b,
        ) implies a == b by {
            if a < b {
                assert(structure@[a].id@ != id@);
            } else if b < a {
                assert(structure@[b].id@ != id@);
            }
        }
    }
    if structure[j].alert_eligible && structure[j].cwm_available {
        HydrationChoice::MarketStructure(i, j)
    } else {
        HydrationChoice::Nothing
    }
}

} // verus!
