//! The canonical timeline of the contract-whale views: which source leads,
//! how far behind the served time it is, and how far each view drifts from
//! it.
use vstd::prelude::*;

use crate::orderflow::sat_sub;

verus! {

/// Where the canonical time comes from, and its lag behind serving.
pub struct CanonicalTimelineMeta {
    pub source: String,
    pub event_ts: Option<i64>,
    pub processed_ts: Option<i64>,
    pub persisted_ts: Option<i64>,
    pub served_ts: i64,
    pub timeline_lag_sec: i64,
}

/// Whole seconds from `event_ts` to `served_ts`, never negative.
pub open spec fn lag_secs(event_ts: Option<i64>, served_ts: i64) -> int {
    match event_ts {
        Some(ts) => {
            let d = sat_sub(served_ts as int, ts as int);
            if d < 0 {
                0
            } else {
                d / 1000
            }
        },
        None => 0,
    }
}

fn sat_sub_exec(a: i64, b: i64) -> (r: i64)
    ensures
        r == sat_sub(a as int, b as int),
{
    crate::orderflow::saturating_sub_i64(a, b)
}

/// The timeline of a source.
pub fn build_canonical_timeline_meta(
    source: String,
    event_ts: Option<i64>,
    persisted_ts: Option<i64>,
    processed_ts: Option<i64>,
    served_ts: i64,
) -> (r: CanonicalTimelineMeta)
    ensures
        r.source == source,
        r.event_ts == event_ts,
        r.processed_ts == processed_ts,
        r.persisted_ts == persisted_ts,
        r.served_ts == served_ts,
        r.timeline_lag_sec == lag_secs(event_ts, served_ts),
{
    let lag: i64 = match event_ts {
        Some(ts) => {
            let d = sat_sub_exec(served_ts, ts);
            if d < 0 {
                0
            } else {
                d / 1000
            }
        },
        None => 0,
    };
    CanonicalTimelineMeta {
        source,
        event_ts,
        processed_ts,
        persisted_ts,
        served_ts,
        timeline_lag_sec: lag,
    }
}

/// Whole seconds between the canonical time and a view's time, when both
/// are known; zero otherwise.
pub open spec fn drift_secs(canonical_ts: Option<i64>, view_ts: Option<i64>) -> int {
    match (canonical_ts, view_ts) {
        (Some(c), Some(v)) => {
            let d = sat_sub(c as int, v as int);
            (if d < 0 {
                -d
            } else {
                d
            }) / 1000
        },
        _ => 0,
    }
}

/// The drift of a view. Taking the absolute value of the smallest `i64`
/// overflows, so a view at least that far after the canonical time is not
/// accepted.
pub fn drift_vs_canonical_sec(canonical_ts: Option<i64>, view_ts: Option<i64>) -> (r: i64)
    requires
        canonical_ts matches Some(c) && view_ts matches Some(v) ==> c - v > i64::MIN,
    ensures
        r == drift_secs(canonical_ts, view_ts),
{
    match (canonical_ts, view_ts) {
        (Some(c), Some(v)) => {
            let d = sat_sub_exec(c, v);
            let a: i64 = if d < 0 {
                -d
            } else {
                d
            };
            a / 1000
        },
        _ => 0,
    }
}

/// What a timeline shows of one view.
pub struct ContractWhaleTimelineViewMeta {
    pub count: usize,
    pub max_event_ts: Option<i64>,
    pub drift_vs_canonical_sec: i64,
    pub cache_age_sec: Option<i64>,
    pub cache_ttl_sec: Option<i64>,
    pub generated_at: Option<i64>,
}

/// What a timeline shows of the flow state.
pub struct ContractWhaleTimelineFlowViewMeta {
    pub updated_at: Option<i64>,
    pub drift_vs_canonical_sec: i64,
}

/// The views of a timeline.
pub struct ContractWhaleTimelineViews {
    pub latest: ContractWhaleTimelineViewMeta,
    pub history: ContractWhaleTimelineViewMeta,
    pub final_events_v2: ContractWhaleTimelineViewMeta,
    pub flow: ContractWhaleTimelineFlowViewMeta,
}

/// The timeline of a symbol over a range.
pub struct ContractWhaleTimelineResponse {
    pub symbol: String,
    pub range: String,
    pub timeline: CanonicalTimelineMeta,
    pub views: ContractWhaleTimelineViews,
}

/// What the timeline reads of a served page.
pub struct TimelinePageSummary {
    pub count: usize,
    pub max_event_ts: Option<i64>,
    pub max_persisted_at: Option<i64>,
    pub cache_age_sec: i64,
    pub cache_ttl_sec: i64,
    pub generated_at: i64,
}

pub open spec fn first_of(a: Option<i64>, b: Option<i64>) -> Option<i64> {
    match a {
        Some(x) => Some(x),
        None => b,
    }
}

/// The canonical event time: the history's, else the final events', else
/// the latest snapshot's, else the flow's.
pub open spec fn canonical_event_ts(
    history: TimelinePageSummary,
    final_events: TimelinePageSummary,
    latest_max_ts: Option<i64>,
    flow_updated_at: Option<i64>,
) -> Option<i64> {
    first_of(
        history.max_event_ts,
        first_of(final_events.max_event_ts, first_of(latest_max_ts, flow_updated_at)),
    )
}

pub open spec fn canonical_source(
    history: TimelinePageSummary,
    final_events: TimelinePageSummary,
    latest_max_ts: Option<i64>,
    flow_updated_at: Option<i64>,
) -> Seq<char> {
    if history.max_event_ts is Some {
        "contract_whale_signals"@
    } else if final_events.max_event_ts is Some {
        "final_events_v2"@
    } else if latest_max_ts is Some {
        "latest_snapshot"@
    } else if flow_updated_at is Some {
        "flow_state"@
    } else {
        "none"@
    }
}

/// Every view time is close enough to every other for its drift to be
/// computed.
pub open spec fn drifts_fit(ts: Seq<Option<i64>>) -> bool {
    forall|i: int, j: int|
        0 <= i < ts.len() && 0 <= j < ts.len() ==> (#[trigger] ts[i] matches Some(a) && #[trigger] ts[j] matches Some(b) ==> a - b > i64::MIN)
}

fn first_exec(a: Option<i64>, b: Option<i64>) -> (r: Option<i64>)
    ensures
        r == first_of(a, b),
{
    match a {
        Some(x) => Some(x),
        None => b,
    }
}

/// The timeline of `symbol` over `range` at `now`, from the latest
/// snapshot (its size and newest time), the history and final-events pages
/// and the flow state's update time (zero when it never updated).
pub fn assemble_contract_whale_timeline_response(
    symbol: &str,
    range: &str,
    now: i64,
    latest_count: usize,
    latest_max_ts: Option<i64>,
    history: &TimelinePageSummary,
    final_events: &TimelinePageSummary,
    flow_updated_at_raw: i64,
) -> (r: ContractWhaleTimelineResponse)
    requires
        drifts_fit(
            seq![
                history.max_event_ts,
                final_events.max_event_ts,
                latest_max_ts,
                if flow_updated_at_raw > 0 {
                    Some(flow_updated_at_raw)
                } else {
                    None
                },
            ],
        ),
    ensures
        ({
            let flow = if flow_updated_at_raw > 0 {
                Some(flow_updated_at_raw)
            } else {
                None
            };
            let event_ts = canonical_event_ts(*history, *final_events, latest_max_ts, flow);
            let persisted_ts = first_of(history.max_persisted_at, event_ts);
            &&& r.symbol@ == symbol@
            &&& r.range@ == range@
            &&& r.timeline.source@ == canonical_source(*history, *final_events, latest_max_ts, flow)
            &&& r.timeline.event_ts == event_ts
            &&& r.timeline.persisted_ts == persisted_ts
            &&& r.timeline.processed_ts == Some(final_events.generated_at)
            &&& r.timeline.served_ts == now
            &&& r.timeline.timeline_lag_sec == lag_secs(event_ts, now)
            &&& r.views.latest.count == latest_count
            &&& r.views.latest.max_event_ts == latest_max_ts
            &&& r.views.latest.drift_vs_canonical_sec == drift_secs(event_ts, latest_max_ts)
            &&& r.views.latest.cache_age_sec is None && r.views.latest.cache_ttl_sec is None
                && r.views.latest.generated_at is None
            &&& r.views.history.count == history.count
            &&& r.views.history.max_event_ts == history.max_event_ts
            &&& r.views.history.drift_vs_canonical_sec == drift_secs(event_ts, history.max_event_ts)
            &&& r.views.history.cache_age_sec == Some(history.cache_age_sec)
            &&& r.views.history.cache_ttl_sec == Some(history.cache_ttl_sec)
            &&& r.views.history.generated_at == Some(history.generated_at)
            &&& r.views.final_events_v2.count == final_events.count
            &&& r.views.final_events_v2.max_event_ts == final_events.max_event_ts
            &&& r.views.final_events_v2.drift_vs_canonical_sec == drift_secs(
                event_ts,
                final_events.max_event_ts,
            )
            &&& r.views.final_events_v2.cache_age_sec == Some(final_events.cache_age_sec)
            &&& r.views.final_events_v2.cache_ttl_sec == Some(final_events.cache_ttl_sec)
            &&& r.views.final_events_v2.generated_at == Some(final_events.generated_at)
            &&& r.views.flow.updated_at == flow
            &&& r.views.flow.drift_vs_canonical_sec == drift_secs(event_ts, flow)
        }),
{
    let flow: Option<i64> = if flow_updated_at_raw > 0 {
        Some(flow_updated_at_raw)
    } else {
        None
    };
    let ghost views = seq![history.max_event_ts, final_events.max_event_ts, latest_max_ts, flow];
    let source: &str = if history.max_event_ts.is_some() {
        "contract_whale_signals"
    } else if final_events.max_event_ts.is_some() {
        "final_events_v2"
    } else if latest_max_ts.is_some() {
        "latest_snapshot"
    } else if flow.is_some() {
        "flow_state"
    } else {
        "none"
    };
    let event_ts = first_exec(
        history.max_event_ts,
        first_exec(final_events.max_event_ts, first_exec(latest_max_ts, flow)),
    );
    proof {
        assert(views[0] == history.max_event_ts);
        assert(views[1] == final_events.max_event_ts);
        assert(views[2] == latest_max_ts);
        assert(views[3] == flow);
    }
    let persisted_ts = first_exec(history.max_persisted_at, event_ts);
    let timeline = build_canonical_timeline_meta(
        String::from_str(source),
        event_ts,
        persisted_ts,
        Some(final_events.generated_at),
        now,
    );
    let latest_drift = drift_vs_canonical_sec(event_ts, latest_max_ts);
    let history_drift = drift_vs_canonical_sec(event_ts, history.max_event_ts);
    let final_drift = drift_vs_canonical_sec(event_ts, final_events.max_event_ts);
    let flow_drift = drift_vs_canonical_sec(event_ts, flow);
    ContractWhaleTimelineResponse {
        symbol: String::from_str(symbol),
        range: String::from_str(range),
        timeline,
        views: ContractWhaleTimelineViews {
            latest: ContractWhaleTimelineViewMeta {
                count: latest_count,
                max_event_ts: latest_max_ts,
                drift_vs_canonical_sec: latest_drift,
                cache_age_sec: None,
                cache_ttl_sec: None,
                generated_at: None,
            },
            history: ContractWhaleTimelineViewMeta {
                count: history.count,
                max_event_ts: history.max_event_ts,
                drift_vs_canonical_sec: history_drift,
                cache_age_sec: Some(history.cache_age_sec),
                cache_ttl_sec: Some(history.cache_ttl_sec),
                generated_at: Some(history.generated_at),
            },
            final_events_v2: ContractWhaleTimelineViewMeta {
                count: final_events.count,
                max_event_ts: final_events.max_event_ts,
                drift_vs_canonical_sec: final_drift,
                cache_age_sec: Some(final_events.cache_age_sec),
                cache_ttl_sec: Some(final_events.cache_ttl_sec),
                generated_at: Some(final_events.generated_at),
            },
            flow: ContractWhaleTimelineFlowViewMeta {
                updated_at: flow,
                drift_vs_canonical_sec: flow_drift,
            },
        },
    }
}

/// What the store reports of a symbol's signals over a range: the time of
/// the newest signal and of the newest write.
pub struct SignalRangeLookup {
    pub max_event_ts: Option<i64>,
    pub persisted_ts: Option<i64>,
}

/// The canonical timeline of a symbol's signals over a range, served at
/// `served_ts`, from what the store reported; `None` when the range could
/// not be read (a range that does not parse, or no store), which gives the
/// source "none" with no times. The source is the signals when the store
/// has one in the range; the processed time is the caller's, else the
/// newest write, else the newest signal.
pub fn canonical_timeline_meta_for_signal_range(
    lookup: Option<SignalRangeLookup>,
    served_ts: i64,
    processed_ts: Option<i64>,
) -> (r: CanonicalTimelineMeta)
    ensures
        r.served_ts == served_ts,
        r.timeline_lag_sec == lag_secs(r.event_ts, served_ts),
        match lookup {
            Some(l) => {
                &&& r.source@ == if l.max_event_ts is Some {
                    "contract_whale_signals"@
                } else {
                    "none"@
                }
                &&& r.event_ts == l.max_event_ts
                &&& r.persisted_ts == l.persisted_ts
                &&& r.processed_ts == first_of(processed_ts, first_of(l.persisted_ts, l.max_event_ts))
            },
            None => {
                &&& r.source@ == "none"@
                &&& r.event_ts is None
                &&& r.persisted_ts is None
                &&& r.processed_ts == processed_ts
            },
        },
{
    match lookup {
        Some(l) => {
            let source = if l.max_event_ts.is_some() {
                "contract_whale_signals"
            } else {
                "none"
            };
            let processed = match processed_ts {
                Some(p) => Some(p),
                None => match l.persisted_ts {
                    Some(p) => Some(p),
                    None => l.max_event_ts,
                },
            };
            build_canonical_timeline_meta(
                String::from_str(source),
                l.max_event_ts,
                l.persisted_ts,
                processed,
                served_ts,
            )
        },
        None => build_canonical_timeline_meta(
            String::from_str("none"),
            None,
            None,
            processed_ts,
            served_ts,
        ),
    }
}

} // verus!
