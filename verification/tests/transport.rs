use toxic_order_monitor::transport::{
    market_structure_evidence_available, CwmRiskContribution, MetricLineage, SplitRiskSystems,
    SplitRiskSystemsTransport, TofMetrics,
};

fn tof_metrics(available: bool) -> TofMetrics {
    TofMetrics {
        lineage: MetricLineage {
            alert_eligible: available,
        },
    }
}

fn cwm_contribution(available: bool) -> CwmRiskContribution {
    CwmRiskContribution {
        available,
        fresh: available,
    }
}

#[test]
fn transport_requires_bilateral_tof_and_fresh_cwm_evidence() {
    for (name, tof_available, cwm_available, expected) in [
        ("neither", false, false, false),
        ("tof_only", true, false, false),
        ("cwm_only", false, true, false),
        ("both", true, true, true),
    ] {
        let tof = tof_metrics(tof_available);
        let cwm = cwm_contribution(cwm_available);
        let available = market_structure_evidence_available(&tof, &cwm);
        assert_eq!(available, expected, "availability for {name}");

        let systems = SplitRiskSystems {
            short_term_toxic: 82u8,
            main_force_structure: 90u8,
        };
        let transport = SplitRiskSystemsTransport::from_core(&systems, available);
        assert_eq!(
            transport.market_structure_score.is_some(),
            expected,
            "marketStructureScore for {name}"
        );
        assert_eq!(
            transport.main_force_structure.is_some(),
            expected,
            "mainForceStructure for {name}"
        );
    }
}

#[test]
fn stale_cwm_evidence_withholds_the_structure_score() {
    let tof = tof_metrics(true);
    let cwm = CwmRiskContribution {
        available: true,
        fresh: false,
    };
    assert!(!market_structure_evidence_available(&tof, &cwm));
    let systems = SplitRiskSystems {
        short_term_toxic: 70u8,
        main_force_structure: 95u8,
    };
    let transport = SplitRiskSystemsTransport::from_core(&systems, true);
    assert_eq!(transport.short_term_toxic, 70);
    assert_eq!(transport.main_force_structure, Some(95));
    assert_eq!(transport.market_structure_score, Some(95));
}
