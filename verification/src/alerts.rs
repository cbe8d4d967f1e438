//! The toxic-flow alert cycle: the send alert filter, the dedupe key, the alert
//! state counters and the sidecar writer's configuration.
//!
//! A cycle is driven from outside: the caller reads the toxic state, asks
//! [`begin_alert_cycle`] what to do, delivers the message when told to, and
//! hands the outcome to [`finish_alert_cycle`].
use vstd::prelude::*;

use crate::deduper::{elapsed_fits, prune_map, send_decision, AlertDeduper};
use crate::text::{
    append_chars, chars_of, lower, lower_chars, nat_decimal, push_str, string_of, trim, trim_chars,
    u64_decimal,
};

verus! {

/// Direction of a toxic-flow event.
#[derive(PartialEq, Eq, Structural, Clone, Copy)]
pub enum ToxicDirection {
    Buy,
    Sell,
    Neutral,
}

/// Severity of a toxic-flow event, from lowest to highest.
#[derive(PartialEq, Eq, Structural, Clone, Copy)]
pub enum ToxicSeverity {
    Normal,
    Watch,
    Warning,
    Alert,
    Extreme,
}

/// Position of a severity in the order `Normal < Watch < Warning < Alert < Extreme`.
pub open spec fn severity_rank(s: ToxicSeverity) -> int {
    match s {
        ToxicSeverity::Normal => 0,
        ToxicSeverity::Watch => 1,
        ToxicSeverity::Warning => 2,
        ToxicSeverity::Alert => 3,
        ToxicSeverity::Extreme => 4,
    }
}

/// Whether `s` is at least `min` in the severity order.
pub fn severity_is_at_least(s: ToxicSeverity, min: ToxicSeverity) -> (r: bool)
    ensures
        r == (severity_rank(s) >= severity_rank(min)),
{
    let a: u8 = match s {
        ToxicSeverity::Normal => 0,
        ToxicSeverity::Watch => 1,
        ToxicSeverity::Warning => 2,
        ToxicSeverity::Alert => 3,
        ToxicSeverity::Extreme => 4,
    };
    let b: u8 = match min {
        ToxicSeverity::Normal => 0,
        ToxicSeverity::Watch => 1,
        ToxicSeverity::Warning => 2,
        ToxicSeverity::Alert => 3,
        ToxicSeverity::Extreme => 4,
    };
    a >= b
}

pub open spec fn direction_word(d: ToxicDirection) -> Seq<char> {
    match d {
        ToxicDirection::Buy => "buy"@,
        ToxicDirection::Sell => "sell"@,
        ToxicDirection::Neutral => "neutral"@,
    }
}

/// The lower-case word of a direction.
pub fn direction_label(direction: ToxicDirection) -> (r: &'static str)
    ensures
        r@ == direction_word(direction),
{
    match direction {
        ToxicDirection::Buy => "buy",
        ToxicDirection::Sell => "sell",
        ToxicDirection::Neutral => "neutral",
    }
}

pub open spec fn sidecar_severity_word(s: ToxicSeverity) -> Seq<char> {
    match s {
        ToxicSeverity::Extreme | ToxicSeverity::Alert => "critical"@,
        ToxicSeverity::Warning => "warning"@,
        ToxicSeverity::Watch | ToxicSeverity::Normal => "info"@,
    }
}

/// The sidecar's three-level severity: critical, warning or info.
pub fn sidecar_severity(severity: ToxicSeverity) -> (r: &'static str)
    ensures
        r@ == sidecar_severity_word(severity),
{
    match severity {
        ToxicSeverity::Extreme | ToxicSeverity::Alert => "critical",
        ToxicSeverity::Warning => "warning",
        ToxicSeverity::Watch | ToxicSeverity::Normal => "info",
    }
}

/// What identifies a toxic-flow event for deduplication.
pub struct ToxicAlertIdentity {
    pub symbol: String,
    pub direction: ToxicDirection,
    pub window_ms: u64,
    /// The key of the leading venue, when one is known.
    pub leader_venue: Option<String>,
    /// The display label of the event's severity.
    pub severity_label: String,
}

pub open spec fn venue_or_unknown(v: Option<String>) -> Seq<char> {
    match v {
        Some(s) => s@,
        None => "unknown"@,
    }
}

/// `symbol:direction:window:venue:severity`.
pub open spec fn alert_key_of(e: ToxicAlertIdentity) -> Seq<char> {
    e.symbol@ + ":"@ + direction_word(e.direction) + ":"@ + nat_decimal(e.window_ms as nat) + ":"@
        + venue_or_unknown(e.leader_venue) + ":"@ + e.severity_label@
}

/// The dedupe key of an event.
pub fn alert_key(event: &ToxicAlertIdentity) -> (r: String)
    ensures
        r@ == alert_key_of(*event),
{
    let mut v = chars_of(event.symbol.as_str());
    push_str(&mut v, ":");
    push_str(&mut v, direction_label(event.direction));
    push_str(&mut v, ":");
    let w = u64_decimal(event.window_ms);
    append_chars(&mut v, &w);
    push_str(&mut v, ":");
    match &event.leader_venue {
        Some(venue) => push_str(&mut v, venue.as_str()),
        None => push_str(&mut v, "unknown"),
    }
    push_str(&mut v, ":");
    push_str(&mut v, event.severity_label.as_str());
    string_of(&v)
}

/// Counters and timestamps of the alert cycle.
pub struct AlertState {
    pub telegram_enabled: bool,
    pub last_checked_ts: Option<i64>,
    pub last_sent_ts: Option<i64>,
    pub last_suppressed_ts: Option<i64>,
    pub sent_count: u64,
    pub suppressed_count: u64,
    pub last_error: Option<String>,
}

impl AlertState {
    /// A state with nothing checked, sent or suppressed.
    pub fn new(telegram_enabled: bool) -> (r: Self)
        ensures
            r.telegram_enabled == telegram_enabled,
            r.last_checked_ts is None,
            r.last_sent_ts is None,
            r.last_suppressed_ts is None,
            r.sent_count == 0,
            r.suppressed_count == 0,
            r.last_error is None,
    {
        AlertState {
            telegram_enabled,
            last_checked_ts: None,
            last_sent_ts: None,
            last_suppressed_ts: None,
            sent_count: 0,
            suppressed_count: 0,
            last_error: None,
        }
    }

    /// A copy of the state.
    pub fn duplicate(&self) -> (r: Self)
        ensures
            r == *self,
    {
        AlertState {
            telegram_enabled: self.telegram_enabled,
            last_checked_ts: self.last_checked_ts,
            last_sent_ts: self.last_sent_ts,
            last_suppressed_ts: self.last_suppressed_ts,
            sent_count: self.sent_count,
            suppressed_count: self.suppressed_count,
            last_error: crate::auto_tracker::clone_opt_string(&self.last_error),
        }
    }
}

/// `n + 1`, staying at the maximum.
pub open spec fn sat_succ(n: u64) -> u64 {
    if n == u64::MAX {
        n
    } else {
        (n + 1) as u64
    }
}

/// Counts one suppressed alert at `now_ts`; nothing else changes.
pub fn record_suppressed(state: &mut AlertState, now_ts: i64)
    ensures
        final(state).suppressed_count == sat_succ(old(state).suppressed_count),
        final(state).last_suppressed_ts == Some(now_ts),
        final(state).telegram_enabled == old(state).telegram_enabled,
        final(state).last_checked_ts == old(state).last_checked_ts,
        final(state).last_sent_ts == old(state).last_sent_ts,
        final(state).sent_count == old(state).sent_count,
        final(state).last_error == old(state).last_error,
{
    state.suppressed_count = state.suppressed_count.saturating_add(1);
    state.last_suppressed_ts = Some(now_ts);
}

/// The configured alert filter of external alerts.
pub struct AlertGateConfig {
    pub dedup_window_ms: i64,
    pub min_severity: ToxicSeverity,
    pub require_cross_venue: bool,
    pub require_markout: bool,
    pub require_liquidity_drain: bool,
}

/// What the alert filter reads of the latest event and of the flow state. The two
/// comparisons of measured quantities are made by the caller.
pub struct ToxicGateFacts {
    /// The flow window has data.
    pub has_flow: bool,
    /// Number of venues whose feed is stale.
    pub stale_venue_count: usize,
    pub direction: ToxicDirection,
    pub severity: ToxicSeverity,
    /// The toxic volume is not below the event's threshold.
    pub volume_reaches_threshold: bool,
    pub cross_venue_confirmed: bool,
    /// The markouts confirm the move.
    pub markout_confirmed: bool,
    pub liquidity_thin: bool,
}

/// The alert filter: fail closed on stale or missing flow; never a neutral event;
/// the configured minimum severity; the volume threshold; and each optional
/// confirmation (cross-venue unless extreme, markout, liquidity drain).
pub open spec fn gate_passes(gate: AlertGateConfig, f: ToxicGateFacts) -> bool {
    &&& f.has_flow
    &&& f.stale_venue_count == 0
    &&& f.direction != ToxicDirection::Neutral
    &&& severity_rank(f.severity) >= severity_rank(gate.min_severity)
    &&& f.volume_reaches_threshold
    &&& (gate.require_cross_venue && f.severity != ToxicSeverity::Extreme ==> f.cross_venue_confirmed)
    &&& (gate.require_markout ==> f.markout_confirmed)
    &&& (gate.require_liquidity_drain ==> f.liquidity_thin)
}

/// Whether an alert may be attempted for the event.
pub fn should_attempt_send(gate: &AlertGateConfig, facts: &ToxicGateFacts) -> (r: bool)
    ensures
        r == gate_passes(*gate, *facts),
{
    if !facts.has_flow || facts.stale_venue_count != 0 {
        return false;
    }
    if facts.direction == ToxicDirection::Neutral {
        return false;
    }
    if !severity_is_at_least(facts.severity, gate.min_severity) {
        return false;
    }
    if !facts.volume_reaches_threshold {
        return false;
    }
    if gate.require_cross_venue && facts.severity != ToxicSeverity::Extreme
        && !facts.cross_venue_confirmed {
        return false;
    }
    if gate.require_markout && !facts.markout_confirmed {
        return false;
    }
    if gate.require_liquidity_drain && !facts.liquidity_thin {
        return false;
    }
    true
}

/// The alert filter refuses an event for each failed check on its own,
/// whatever the other facts: missing or stale flow, a neutral direction, a
/// severity under the minimum, a volume under its threshold, a missing
/// cross-venue confirmation when required (except for an extreme event), a
/// missing markout confirmation when required, and a book that is not thin
/// when a liquidity drain is required. An event that passes every check is
/// let through.
pub proof fn law_alert_filter_checks(gate: AlertGateConfig, f: ToxicGateFacts)
    ensures
        !f.has_flow ==> !gate_passes(gate, f),
        f.stale_venue_count > 0 ==> !gate_passes(gate, f),
        f.direction == ToxicDirection::Neutral ==> !gate_passes(gate, f),
        severity_rank(f.severity) < severity_rank(gate.min_severity) ==> !gate_passes(gate, f),
        !f.volume_reaches_threshold ==> !gate_passes(gate, f),
        gate.require_cross_venue && f.severity != ToxicSeverity::Extreme && !f.cross_venue_confirmed
            ==> !gate_passes(gate, f),
        gate.require_markout && !f.markout_confirmed ==> !gate_passes(gate, f),
        gate.require_liquidity_drain && !f.liquidity_thin ==> !gate_passes(gate, f),
        f.has_flow && f.stale_venue_count == 0 && f.direction != ToxicDirection::Neutral
            && severity_rank(f.severity) >= severity_rank(gate.min_severity)
            && f.volume_reaches_threshold && (!gate.require_cross_venue || f.severity
            == ToxicSeverity::Extreme || f.cross_venue_confirmed) && (!gate.require_markout
            || f.markout_confirmed) && (!gate.require_liquidity_drain || f.liquidity_thin)
            ==> gate_passes(gate, f),
{
}

/// What a cycle does after its checks.
pub enum AlertCycleStep {
    /// Nothing to deliver; the state is final.
    Done,
    /// Deliver the alert under this dedupe key, then finish the cycle.
    Deliver(String),
}

/// The state after the first part of a cycle at `now_ts`.
pub open spec fn cycle_state_ok(
    old_state: AlertState,
    new_state: AlertState,
    telegram_enabled: bool,
    now_ts: i64,
    suppressed: bool,
) -> bool {
    &&& new_state.telegram_enabled == telegram_enabled
    &&& new_state.last_checked_ts == Some(now_ts)
    &&& new_state.last_sent_ts == old_state.last_sent_ts
    &&& new_state.sent_count == old_state.sent_count
    &&& new_state.last_error == old_state.last_error
    &&& if suppressed {
        &&& new_state.suppressed_count == sat_succ(old_state.suppressed_count)
        &&& new_state.last_suppressed_ts == Some(now_ts)
    } else {
        &&& new_state.suppressed_count == old_state.suppressed_count
        &&& new_state.last_suppressed_ts == old_state.last_suppressed_ts
    }
}

/// The first part of a cycle at `now_ts`: records the check; without an
/// event stops; a gated-out event, or one whose key the deduper holds back,
/// is counted as suppressed; with no delivery channel enabled stops;
/// otherwise asks for delivery under the event's key.
pub fn begin_alert_cycle(
    state: &mut AlertState,
    deduper: &mut AlertDeduper,
    gate: &AlertGateConfig,
    event: Option<(&ToxicAlertIdentity, &ToxicGateFacts)>,
    telegram_enabled: bool,
    sidecar_enabled: bool,
    now_ts: i64,
) -> (r: AlertCycleStep)
    requires
        old(deduper).wf(),
        elapsed_fits(old(deduper).sent(), now_ts as int),
    ensures
        final(deduper).wf(),
        final(deduper).window() == old(deduper).window(),
        match event {
            None => {
                &&& r is Done
                &&& cycle_state_ok(*old(state), *final(state), telegram_enabled, now_ts, false)
                &&& final(deduper).sent() == old(deduper).sent()
            },
            Some((id, facts)) => if !gate_passes(*gate, *facts) {
                &&& r is Done
                &&& cycle_state_ok(*old(state), *final(state), telegram_enabled, now_ts, true)
                &&& final(deduper).sent() == old(deduper).sent()
            } else {
                &&& final(deduper).sent() == prune_map(
                    old(deduper).sent(),
                    old(deduper).window(),
                    now_ts as int,
                )
                &&& if !send_decision(
                    old(deduper).sent(),
                    old(deduper).window(),
                    alert_key_of(*id),
                    now_ts as int,
                ) {
                    &&& r is Done
                    &&& cycle_state_ok(*old(state), *final(state), telegram_enabled, now_ts, true)
                } else {
                    &&& cycle_state_ok(*old(state), *final(state), telegram_enabled, now_ts, false)
                    &&& if !telegram_enabled && !sidecar_enabled {
                        r is Done
                    } else {
                        r matches AlertCycleStep::Deliver(k) && k@ == alert_key_of(*id)
                    }
                }
            },
        },
{
    state.telegram_enabled = telegram_enabled;
    state.last_checked_ts = Some(now_ts);
    match event {
        None => AlertCycleStep::Done,
        Some((id, facts)) => {
            if !should_attempt_send(gate, facts) {
                record_suppressed(state, now_ts);
                return AlertCycleStep::Done;
            }
            let key = alert_key(id);
            let can_send = deduper.should_send(key.as_str(), now_ts);
            if !can_send {
                record_suppressed(state, now_ts);
                return AlertCycleStep::Done;
            }
            if !telegram_enabled && !sidecar_enabled {
                return AlertCycleStep::Done;
            }
            AlertCycleStep::Deliver(key)
        },
    }
}

/// `prefix` followed by the error text.
pub open spec fn tagged(prefix: Seq<char>, e: Option<String>) -> Option<Seq<char>> {
    match e {
        Some(s) => Some(prefix + s@),
        None => None,
    }
}

/// The error remembered after a delivery attempt: when something was
/// delivered, the telegram error (tagged) or else the sidecar error (tagged),
/// else none; when nothing was, the raw telegram error, else the tagged
/// sidecar error, else the previous error.
pub open spec fn error_after(
    delivered: bool,
    telegram_error: Option<String>,
    sidecar_error: Option<String>,
    previous: Option<String>,
) -> Option<Seq<char>> {
    if delivered {
        match tagged("telegram: "@, telegram_error) {
            Some(t) => Some(t),
            None => tagged("sidecar: "@, sidecar_error),
        }
    } else {
        match telegram_error {
            Some(t) => Some(t@),
            None => match sidecar_error {
                Some(s) => Some("sidecar: "@ + s@),
                None => match previous {
                    Some(p) => Some(p@),
                    None => None,
                },
            },
        }
    }
}

pub open spec fn opt_string_view(o: Option<String>) -> Option<Seq<char>> {
    match o {
        Some(s) => Some(s@),
        None => None,
    }
}

fn tag(prefix: &str, e: &String) -> (r: String)
    ensures
        r@ == prefix@ + e@,
{
    let mut v = chars_of(prefix);
    push_str(&mut v, e.as_str());
    string_of(&v)
}

/// The second part of a cycle: a delivery through either channel marks the
/// key sent and counts the alert as sent; the errors are remembered as
/// [`error_after`] says.
pub fn finish_alert_cycle(
    state: &mut AlertState,
    deduper: &mut AlertDeduper,
    key: &str,
    now_ts: i64,
    delivered: bool,
    telegram_error: Option<String>,
    sidecar_error: Option<String>,
)
    requires
        old(deduper).wf(),
    ensures
        final(deduper).wf(),
        final(deduper).window() == old(deduper).window(),
        final(deduper).sent() == if delivered {
            old(deduper).sent().insert(key@, now_ts)
        } else {
            old(deduper).sent()
        },
        final(state).sent_count == if delivered {
            sat_succ(old(state).sent_count)
        } else {
            old(state).sent_count
        },
        final(state).last_sent_ts == if delivered {
            Some(now_ts)
        } else {
            old(state).last_sent_ts
        },
        opt_string_view(final(state).last_error) == error_after(
            delivered,
            telegram_error,
            sidecar_error,
            old(state).last_error,
        ),
        final(state).telegram_enabled == old(state).telegram_enabled,
        final(state).last_checked_ts == old(state).last_checked_ts,
        final(state).last_suppressed_ts == old(state).last_suppressed_ts,
        final(state).suppressed_count == old(state).suppressed_count,
{
    if delivered {
        deduper.mark_sent(key, now_ts);
        state.sent_count = state.sent_count.saturating_add(1);
        state.last_sent_ts = Some(now_ts);
        state.last_error = match &telegram_error {
            Some(t) => Some(tag("telegram: ", t)),
            None => match &sidecar_error {
                Some(s) => Some(tag("sidecar: ", s)),
                None => None,
            },
        };
    } else if let Some(t) = telegram_error {
        state.last_error = Some(t);
    } else if let Some(s) = &sidecar_error {
        state.last_error = Some(tag("sidecar: ", s));
    }
}

/// A runtime acceptance test alert asked for by an operator.
pub struct DevTestSidecarAlertInput {
    pub severity: ToxicSeverity,
    /// The key of the venue named in the alert.
    pub venue: String,
    pub symbol: String,
    pub dedupe_suffix: String,
}

/// What a runtime acceptance test alert did.
pub struct DevTestSidecarAlertResult {
    pub dedupe_key: String,
    pub deduped: bool,
    pub sidecar_written: bool,
}

/// `runtime_acceptance_test:venue:symbol:severity:suffix`, with the symbol
/// and suffix trimmed and the severity label lower-cased.
pub open spec fn acceptance_key_of(input: DevTestSidecarAlertInput, severity_label: Seq<char>) -> Seq<
    char,
> {
    "runtime_acceptance_test:"@ + input.venue@ + ":"@ + trim(input.symbol@) + ":"@ + lower(
        severity_label,
    ) + ":"@ + trim(input.dedupe_suffix@)
}

/// The dedupe key of a runtime acceptance test alert.
pub fn runtime_acceptance_dedupe_key(input: &DevTestSidecarAlertInput, severity_label: &str) -> (r:
    String)
    ensures
        r@ == acceptance_key_of(*input, severity_label@),
{
    let mut v = chars_of("runtime_acceptance_test:");
    push_str(&mut v, input.venue.as_str());
    push_str(&mut v, ":");
    let sym = trim_chars(&chars_of(input.symbol.as_str()));
    append_chars(&mut v, &sym);
    push_str(&mut v, ":");
    let lab = lower_chars(&chars_of(severity_label));
    append_chars(&mut v, &lab);
    push_str(&mut v, ":");
    let suf = trim_chars(&chars_of(input.dedupe_suffix.as_str()));
    append_chars(&mut v, &suf);
    string_of(&v)
}

/// How a runtime acceptance test alert proceeds after its checks.
pub enum AcceptanceStep {
    /// The key is held back; the test alert is reported as deduplicated.
    Deduped(DevTestSidecarAlertResult),
    /// The sidecar cannot be written; the test alert fails.
    SidecarDisabled,
    /// Write the sidecar event under this key, then finish.
    Write(String),
}

/// The checks of a runtime acceptance test alert at `now_ts`, on a copy of
/// the state: records the check; a key the deduper holds back counts as
/// suppressed; a disabled sidecar records its error. The caller keeps the
/// new state except on `Write`, where it keeps the state only once the write
/// succeeded (see [`finish_runtime_acceptance_test`]).
pub fn begin_runtime_acceptance_test(
    state: &mut AlertState,
    deduper: &mut AlertDeduper,
    input: &DevTestSidecarAlertInput,
    severity_label: &str,
    sidecar_enabled: bool,
    now_ts: i64,
) -> (r: AcceptanceStep)
    requires
        old(deduper).wf(),
        elapsed_fits(old(deduper).sent(), now_ts as int),
    ensures
        final(deduper).wf(),
        final(deduper).window() == old(deduper).window(),
        final(deduper).sent() == prune_map(old(deduper).sent(), old(deduper).window(), now_ts as int),
        final(state).last_checked_ts == Some(now_ts),
        final(state).telegram_enabled == old(state).telegram_enabled,
        final(state).sent_count == old(state).sent_count,
        final(state).last_sent_ts == old(state).last_sent_ts,
        if !send_decision(
            old(deduper).sent(),
            old(deduper).window(),
            acceptance_key_of(*input, severity_label@),
            now_ts as int,
        ) {
            &&& r matches AcceptanceStep::Deduped(res) && res.dedupe_key@ == acceptance_key_of(
                *input,
                severity_label@,
            ) && res.deduped && !res.sidecar_written
            &&& final(state).suppressed_count == sat_succ(old(state).suppressed_count)
            &&& final(state).last_suppressed_ts == Some(now_ts)
            &&& final(state).last_error == old(state).last_error
        } else {
            &&& final(state).suppressed_count == old(state).suppressed_count
            &&& final(state).last_suppressed_ts == old(state).last_suppressed_ts
            &&& if !sidecar_enabled {
                &&& r is SidecarDisabled
                &&& opt_string_view(final(state).last_error) == Some(
                    "sidecar_disabled_or_path_missing"@,
                )
            } else {
                &&& r matches AcceptanceStep::Write(k) && k@ == acceptance_key_of(
                    *input,
                    severity_label@,
                )
                &&& final(state).last_error == old(state).last_error
            }
        },
{
    state.last_checked_ts = Some(now_ts);
    let key = runtime_acceptance_dedupe_key(input, severity_label);
    let can_send = deduper.should_send(key.as_str(), now_ts);
    if !can_send {
        record_suppressed(state, now_ts);
        return AcceptanceStep::Deduped(
            DevTestSidecarAlertResult { dedupe_key: key, deduped: true, sidecar_written: false },
        );
    }
    if !sidecar_enabled {
        state.last_error = Some(String::from_str("sidecar_disabled_or_path_missing"));
        return AcceptanceStep::SidecarDisabled;
    }
    AcceptanceStep::Write(key)
}

/// After a successful sidecar write: marks the key sent, counts the alert
/// as sent and clears the error.
pub fn finish_runtime_acceptance_test(
    state: &mut AlertState,
    deduper: &mut AlertDeduper,
    key: String,
    now_ts: i64,
) -> (r: DevTestSidecarAlertResult)
    requires
        old(deduper).wf(),
    ensures
        final(deduper).wf(),
        final(deduper).window() == old(deduper).window(),
        final(deduper).sent() == old(deduper).sent().insert(key@, now_ts),
        final(state).sent_count == sat_succ(old(state).sent_count),
        final(state).last_sent_ts == Some(now_ts),
        final(state).last_error is None,
        final(state).telegram_enabled == old(state).telegram_enabled,
        final(state).last_checked_ts == old(state).last_checked_ts,
        final(state).last_suppressed_ts == old(state).last_suppressed_ts,
        final(state).suppressed_count == old(state).suppressed_count,
        r.dedupe_key == key,
        !r.deduped,
        r.sidecar_written,
{
    deduper.mark_sent(key.as_str(), now_ts);
    state.sent_count = state.sent_count.saturating_add(1);
    state.last_sent_ts = Some(now_ts);
    state.last_error = None;
    DevTestSidecarAlertResult { dedupe_key: key, deduped: false, sidecar_written: true }
}

/// Trimmed, or nothing when blank.
pub open spec fn non_empty_of(value: Seq<char>) -> Option<Seq<char>> {
    if trim(value).len() > 0 {
        Some(trim(value))
    } else {
        None
    }
}

/// The trimmed value, or `None` when it is blank.
pub fn non_empty(value: String) -> (r: Option<String>)
    ensures
        opt_string_view(r) == non_empty_of(value@),
{
    let t = trim_chars(&chars_of(value.as_str()));
    if t.len() > 0 {
        Some(string_of(&t))
    } else {
        None
    }
}

/// Whether the sidecar switch reads `true`, ignoring case; unset is off.
pub fn parse_sidecar_enabled(value: Option<&str>) -> (r: bool)
    ensures
        r == (value matches Some(v) && lower(v@) == "true"@),
{
    proof {
        reveal_strlit("true");
        assert(lower("true"@) =~= "true"@);
    }
    match value {
        Some(v) => crate::text::eq_ignore_case_str(&chars_of(v), "true"),
        None => false,
    }
}

/// Where the toxic-flow sidecar appends its events, if it is on.
pub struct ToxicFlowSidecarWriter {
    enabled: bool,
    events_path: Option<String>,
}

impl ToxicFlowSidecarWriter {
    pub closed spec fn switch(&self) -> bool {
        self.enabled
    }

    pub closed spec fn path(&self) -> Option<Seq<char>> {
        opt_string_view(self.events_path)
    }

    /// A writer that never writes.
    pub fn disabled() -> (r: Self)
        ensures
            !r.switch(),
            r.path() is None,
    {
        ToxicFlowSidecarWriter { enabled: false, events_path: None }
    }

    /// A writer with the given switch; a blank path counts as none.
    pub fn new(enabled: bool, events_path: Option<String>) -> (r: Self)
        ensures
            r.switch() == enabled,
            r.path() == match events_path {
                Some(p) => if trim(p@).len() > 0 {
                    Some(p@)
                } else {
                    None
                },
                None => None,
            },
    {
        let path = match events_path {
            Some(p) => {
                let t = trim_chars(&chars_of(p.as_str()));
                if t.len() > 0 {
                    Some(p)
                } else {
                    None
                }
            },
            None => None,
        };
        ToxicFlowSidecarWriter { enabled, events_path: path }
    }

    /// On, and with a path to write to.
    pub fn enabled(&self) -> (r: bool)
        ensures
            r == (self.switch() && self.path() is Some),
    {
        self.enabled && self.events_path.is_some()
    }

    /// The file the events go to, when the writer is enabled.
    pub fn target(&self) -> (r: Option<&str>)
        ensures
            match r {
                Some(p) => self.switch() && self.path() == Some(p@),
                None => !(self.switch() && self.path() is Some),
            },
    {
        if !self.enabled {
            return None;
        }
        match &self.events_path {
            Some(p) => Some(p.as_str()),
            None => None,
        }
    }
}

/// Position of the first line break in `s`, or its length when there is
/// none.
pub open spec fn break_pos(s: Seq<char>) -> nat
    decreases s.len(),
{
    if s.len() == 0 {
        0
    } else if s[0] == '\n' {
        0
    } else {
        1 + break_pos(s.drop_first())
    }
}

/// The first line of `s` that is not blank, trimmed.
pub open spec fn first_summary(s: Seq<char>) -> Option<Seq<char>>
    decreases s.len(),
{
    let i = break_pos(s);
    let line = s.take(i as int);
    if trim(line).len() > 0 {
        Some(trim(line))
    } else if i < s.len() {
        first_summary(s.skip(i as int + 1))
    } else {
        None
    }
}

proof fn lemma_break_pos(s: Seq<char>, i: int)
    requires
        0 <= i <= s.len(),
        forall|j: int| 0 <= j < i ==> s[j] != '\n',
        i == s.len() || s[i] == '\n',
    ensures
        break_pos(s) == i,
    decreases i,
{
    if i > 0 {
        let t = s.drop_first();
        assert forall|j: int| 0 <= j < i - 1 implies t[j] != '\n' by {
            assert(t[j] == s[j + 1]);
        }
        if i < s.len() {
            assert(t[i - 1] == s[i]);
        }
        lemma_break_pos(t, i - 1);
    }
}

/// The first line of a message that is not blank, trimmed; none when every
/// line is blank.
pub fn first_summary_line(message: &str) -> (r: Option<String>)
    ensures
        opt_string_view(r) == first_summary(message@),
{
    let v = chars_of(message);
    let mut start: usize = 0;
    proof {
        assert(v@.skip(0) =~= v@);
    }
    while start <= v.len()
        invariant
            v@ == message@,
            start <= v@.len(),
            first_summary(v@.skip(start as int)) == first_summary(message@),
        decreases v.len() - start,
    {
        let mut i: usize = start;
        while i < v.len() && v[i] != '\n'
            invariant
                start <= i <= v@.len(),
                forall|j: int| start <= j < i ==> v@[j] != '\n',
            decreases v.len() - i,
        {
            i = i + 1;
        }
        let ghost rest = v@.skip(start as int);
        proof {
            assert forall|j: int| 0 <= j < i - start implies rest[j] != '\n' by {
                assert(rest[j] == v@[start + j]);
            }
            if i < v@.len() {
                assert(rest[i - start] == v@[i as int]);
            }
            lemma_break_pos(rest, i - start);
        }
        let line = crate::text::prefix_chars(&crate::text::suffix_chars(&v, start), i - start);
        proof {
            assert(line@ =~= rest.take(i - start));
        }
        let t = trim_chars(&line);
        if t.len() > 0 {
            return Some(string_of(&t));
        }
        if i == v.len() {
            return None;
        }
        proof {
            assert(rest.skip(i - start + 1) =~= v@.skip(i + 1));
        }
        start = i + 1;
    }
    None
}

} // verus!
