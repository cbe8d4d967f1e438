//! What the risk endpoints publish of the split risk systems: the market
//! structure score only when both sides of its evidence are there.
use vstd::prelude::*;

verus! {

/// Where a metric came from, as far as alerting needs it.
pub struct MetricLineage {
    pub alert_eligible: bool,
}

/// Trade-order-flow metrics, as far as the evidence check reads them.
pub struct TofMetrics {
    pub lineage: MetricLineage,
}

/// The contract-whale-monitor side of the risk, as far as the evidence
/// check reads it.
pub struct CwmRiskContribution {
    pub available: bool,
    pub fresh: bool,
}

/// The two risk systems computed by the core: a short-term toxic risk and a
/// main-force structure risk.
pub struct SplitRiskSystems<S, M> {
    pub short_term_toxic: S,
    pub main_force_structure: M,
}

/// The published form: the short-term risk always; the structure risk,
/// under both of its names, only when its evidence is available.
pub struct SplitRiskSystemsTransport<S, M> {
    pub short_term_toxic: S,
    pub market_structure_score: Option<M>,
    pub main_force_structure: Option<M>,
}

/// The transport of `systems` when the structure evidence is or is not
/// available.
pub open spec fn transport_of<S, M>(systems: SplitRiskSystems<S, M>, available: bool) -> SplitRiskSystemsTransport<S, M> {
    let structure = if available {
        Some(systems.main_force_structure)
    } else {
        None
    };
    SplitRiskSystemsTransport {
        short_term_toxic: systems.short_term_toxic,
        market_structure_score: structure,
        main_force_structure: structure,
    }
}

/// Both sides of the market-structure evidence are there.
pub open spec fn evidence_of(tof: TofMetrics, cwm: CwmRiskContribution) -> bool {
    tof.lineage.alert_eligible && cwm.available && cwm.fresh
}

impl<S: Copy, M: Copy> SplitRiskSystemsTransport<S, M> {
    /// The transport of `systems`.
    pub fn from_core(systems: &SplitRiskSystems<S, M>, market_structure_available: bool) -> (r: Self)
        ensures
            r == transport_of(*systems, market_structure_available),
    {
        let main_force_structure = if market_structure_available {
            Some(systems.main_force_structure)
        } else {
            None
        };
        SplitRiskSystemsTransport {
            short_term_toxic: systems.short_term_toxic,
            market_structure_score: main_force_structure,
            main_force_structure,
        }
    }
}

/// Market-structure evidence needs both sides: alert-eligible order-flow
/// metrics and an available, fresh contract-whale contribution.
pub fn market_structure_evidence_available(
    tof_metrics: &TofMetrics,
    cwm_contribution: &CwmRiskContribution,
) -> (r: bool)
    ensures
        r == evidence_of(*tof_metrics, *cwm_contribution),
{
    tof_metrics.lineage.alert_eligible && cwm_contribution.available && cwm_contribution.fresh
}

/// The structure risk is published, under both names, exactly when both
/// sides of its evidence are there; the short-term risk always is.
pub proof fn law_structure_published_iff_evidence<S, M>(
    tof: TofMetrics,
    cwm: CwmRiskContribution,
    systems: SplitRiskSystems<S, M>,
)
    ensures
        transport_of(systems, evidence_of(tof, cwm)).main_force_structure is Some <==> (
        tof.lineage.alert_eligible && cwm.available && cwm.fresh),
        transport_of(systems, evidence_of(tof, cwm)).market_structure_score == transport_of(
            systems,
            evidence_of(tof, cwm),
        ).main_force_structure,
        transport_of(systems, evidence_of(tof, cwm)).short_term_toxic == systems.short_term_toxic,
{
}

} // verus!
