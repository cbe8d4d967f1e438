//! The decisions of the Discord push flows, manual and automatic.
//!
//! Each flow runs in two steps around the webhook delivery, which is the
//! caller's: the first step checks the alert filter outcome, the configuration, the
//! push key and the rate limits, records refusals, and either answers or
//! asks for delivery; the second step takes the delivery's result,
//! releases the reservation when nothing was sent, records the outcome and
//! answers.
use vstd::prelude::*;

use crate::auto_tracker::{
    merged_status, set_discord_alert_status, DiscordAlertPublicStatus, DiscordAutoPushTracker,
};
use crate::discord::{
    canonical_manual_push_key, dedupe_key_of, first_some, manual_key_of, opt_string_view,
    push_dedupe_key, record_discord_alert_status, status_from_decision, status_recorded,
    status_word, DiscordRequestFields,
};
use crate::push_limiter::{after_reserve, opt_view, refusal, DiscordPushLimits};
use crate::text::{chars_of, starts_with, starts_with_str, string_of, trim, trim_chars};
use crate::whale_labels::{canonical_base, canonical_base_asset};

verus! {

// ---------------------------------------------------------------------------
// The webhook address
// ---------------------------------------------------------------------------

/// What `url::Url::parse` reads of a text: its scheme, host and path, or
/// nothing when the text is not a URL.
pub uninterp spec fn url_parts(raw: Seq<char>) -> Option<(Seq<char>, Option<Seq<char>>, Seq<char>)>;

/// Calls `reqwest::Url::parse` (the `url` crate) and returns the URL's
/// `scheme()`, `host_str()` and `path()`. Claimed: the result is the named
/// reading of the text.
#[verifier::external_body]
fn parse_url(raw: &str) -> (r: Option<(String, Option<String>, String)>)
    ensures
        match r {
            Some((s, h, p)) => url_parts(raw@) == Some((s@, opt_string_view(h), p@)),
            None => url_parts(raw@) is None,
        },
{
    match reqwest::Url::parse(raw) {
        Ok(url) => {
            let host = match url.host_str() {
                Some(h) => Some(h.to_string()),
                None => None,
            };
            Some((url.scheme().to_string(), host, url.path().to_string()))
        },
        Err(_) => None,
    }
}

/// A Discord webhook address: https, on discord.com or discordapp.com,
/// under `/api/webhooks/`.
pub open spec fn webhook_parts_ok(parts: Option<(Seq<char>, Option<Seq<char>>, Seq<char>)>) -> bool {
    match parts {
        Some((scheme, host, path)) => scheme == "https"@ && (host == Some("discord.com"@) || host
            == Some("discordapp.com"@)) && starts_with(path, "/api/webhooks/"@),
        None => false,
    }
}

/// Whether parsed URL parts name a Discord webhook.
pub fn webhook_parts_allowed(parts: &Option<(String, Option<String>, String)>) -> (r: bool)
    ensures
        r == webhook_parts_ok(
            match parts {
                Some((s, h, p)) => Some((s@, opt_string_view(*h), p@)),
                None => None,
            },
        ),
{
    match parts {
        Some((scheme, host, path)) => {
            let host_ok = match host {
                Some(h) => crate::keyed::str_eq(h.as_str(), "discord.com") || crate::keyed::str_eq(
                    h.as_str(),
                    "discordapp.com",
                ),
                None => false,
            };
            crate::keyed::str_eq(scheme.as_str(), "https") && host_ok && starts_with_str(
                &chars_of(path.as_str()),
                "/api/webhooks/",
            )
        },
        None => false,
    }
}

/// Accepts only Discord webhook addresses.
pub fn validate_discord_webhook_url(raw: &str) -> (r: Result<(), ()>)
    ensures
        r is Ok <==> webhook_parts_ok(url_parts(raw@)),
{
    let parts = parse_url(raw);
    if webhook_parts_allowed(&parts) {
        Ok(())
    } else {
        Err(())
    }
}

/// The first of the family's and the shared setting that is not blank.
pub open spec fn webhook_setting(family: Option<Seq<char>>, shared: Option<Seq<char>>) -> Option<
    Seq<char>,
> {
    match family {
        Some(f) if trim(f).len() > 0 => Some(f),
        _ => match shared {
            Some(s) if trim(s).len() > 0 => Some(s),
            _ => None,
        },
    }
}

fn non_blank(v: Option<&str>) -> (r: Option<String>)
    ensures
        opt_string_view(r) == match opt_view(v) {
            Some(s) if trim(s).len() > 0 => Some(s),
            _ => None,
        },
{
    match v {
        Some(s) => if trim_chars(&chars_of(s)).len() > 0 {
            Some(String::from_str(s))
        } else {
            None
        },
        None => None,
    }
}

/// The webhook address of a family: its own setting, else the shared one,
/// ignoring blank settings.
pub fn discord_webhook_url(family_value: Option<&str>, shared_value: Option<&str>) -> (r: Option<
    String,
>)
    ensures
        opt_string_view(r) == webhook_setting(opt_view(family_value), opt_view(shared_value)),
{
    match non_blank(family_value) {
        Some(v) => Some(v),
        None => non_blank(shared_value),
    }
}

/// The channel name of a family, unless blank.
pub fn discord_channel_name(value: Option<&str>) -> (r: Option<String>)
    ensures
        opt_string_view(r) == match opt_view(value) {
            Some(s) if trim(s).len() > 0 => Some(s),
            _ => None,
        },
{
    non_blank(value)
}

// ---------------------------------------------------------------------------
// The manual push
// ---------------------------------------------------------------------------

/// The answer of a push request, as far as the flow decides it (the
/// configured thresholds are added by the caller).
pub struct ProxyReply {
    pub status: u16,
    pub ok: bool,
    pub configured: bool,
    pub reason: String,
    pub sent: bool,
}

pub open spec fn reply_is(
    r: ProxyReply,
    status: u16,
    ok: bool,
    configured: bool,
    reason: Seq<char>,
    sent: bool,
) -> bool {
    r.status == status && r.ok == ok && r.configured == configured && r.reason@ == reason && r.sent
        == sent
}

fn reply(status: u16, ok: bool, configured: bool, reason: &str, sent: bool) -> (r: ProxyReply)
    ensures
        reply_is(r, status, ok, configured, reason@, sent),
{
    ProxyReply { status, ok, configured, reason: String::from_str(reason), sent }
}

/// The first step of a manual push.
pub enum ManualPushStep {
    /// Answer now.
    Reply(ProxyReply),
    /// Post the message to this address; the push key is reserved on the
    /// delivery limiter.
    Deliver { webhook_url: String, push_key: String },
}

/// The first step of a manual push. The alert filter outcome (`gate_allowed`,
/// `gate_reason`, `configured`) and the webhook address come from the
/// caller. A refused alert filter is recorded and answered; a real delivery (one
/// that is not a test) needs a Discord webhook address; the push needs a
/// canonical push key, reserved on the delivery limiter, or on the preview
/// limiter for a test, whose refusal is recorded and answered; a test is
/// then answered as a preview only.
pub fn begin_manual_push(
    tracker: &mut DiscordAutoPushTracker,
    limits: &mut DiscordPushLimits,
    fields: &DiscordRequestFields,
    gate_allowed: bool,
    gate_reason: &str,
    configured: bool,
    webhook_url: Option<String>,
    cooldown_key: Option<&str>,
    cooldown_secs: u64,
) -> (r: ManualPushStep)
    requires
        old(tracker).wf(),
        old(limits).wf(),
    ensures
        final(tracker).wf(),
        final(limits).wf(),
        ({
            let permitted = gate_allowed && fields.test != Some(true);
            let key = manual_key_of(*fields);
            let ck = opt_view(cooldown_key);
            if !gate_allowed {
                &&& r matches ManualPushStep::Reply(rep) && reply_is(
                    rep,
                    200,
                    false,
                    configured,
                    gate_reason@,
                    false,
                )
                &&& status_recorded(
                    *old(tracker),
                    *final(tracker),
                    *fields,
                    false,
                    gate_reason@,
                    false,
                    None,
                )
                &&& *final(limits) == *old(limits)
            } else if permitted && webhook_url is None {
                &&& r matches ManualPushStep::Reply(rep) && reply_is(
                    rep,
                    200,
                    false,
                    false,
                    "DISCORD_NOT_CONFIGURED"@,
                    false,
                )
                &&& *final(tracker) == *old(tracker)
                &&& *final(limits) == *old(limits)
            } else if permitted && !webhook_parts_ok(url_parts(webhook_url->Some_0@)) {
                &&& r matches ManualPushStep::Reply(rep) && reply_is(
                    rep,
                    400,
                    false,
                    true,
                    "DISCORD_WEBHOOK_URL_INVALID"@,
                    false,
                )
                &&& *final(tracker) == *old(tracker)
                &&& *final(limits) == *old(limits)
            } else if key is None {
                &&& r matches ManualPushStep::Reply(rep) && reply_is(
                    rep,
                    200,
                    false,
                    configured,
                    "authoritative_signal_id_unavailable"@,
                    false,
                )
                &&& status_recorded(
                    *old(tracker),
                    *final(tracker),
                    *fields,
                    false,
                    "authoritative_signal_id_unavailable"@,
                    false,
                    None,
                )
                &&& *final(limits) == *old(limits)
            } else {
                let k = key->Some_0;
                &&& if permitted {
                    &&& final(limits).preview == old(limits).preview
                    &&& exists|now: u64|
                        #![trigger after_reserve(old(limits).delivery.state(), now, k, ck, Some(cooldown_secs))]
                        final(limits).delivery.state() == after_reserve(
                            old(limits).delivery.state(),
                            now,
                            k,
                            ck,
                            Some(cooldown_secs),
                        ) && match refusal(old(limits).delivery.state(), now, k, ck) {
                            Some(reason) => r matches ManualPushStep::Reply(rep) && reply_is(
                                rep,
                                200,
                                false,
                                configured,
                                reason,
                                false,
                            ) && status_recorded(
                                *old(tracker),
                                *final(tracker),
                                *fields,
                                false,
                                reason,
                                false,
                                None,
                            ),
                            None => r matches ManualPushStep::Deliver { webhook_url: u, push_key: p }
                                && Some(u) == webhook_url && p@ == k && *final(tracker) == *old(tracker),
                        }
                } else {
                    &&& final(limits).delivery == old(limits).delivery
                    &&& exists|now: u64|
                        #![trigger after_reserve(old(limits).preview.state(), now, k, ck, Some(cooldown_secs))]
                        final(limits).preview.state() == after_reserve(
                            old(limits).preview.state(),
                            now,
                            k,
                            ck,
                            Some(cooldown_secs),
                        ) && match refusal(old(limits).preview.state(), now, k, ck) {
                            Some(reason) => r matches ManualPushStep::Reply(rep) && reply_is(
                                rep,
                                200,
                                false,
                                configured,
                                reason,
                                false,
                            ) && status_recorded(
                                *old(tracker),
                                *final(tracker),
                                *fields,
                                false,
                                reason,
                                false,
                                None,
                            ),
                            None => r matches ManualPushStep::Reply(rep) && reply_is(
                                rep,
                                200,
                                true,
                                configured,
                                "TEST_PREVIEW_ONLY"@,
                                false,
                            ) && *final(tracker) == *old(tracker),
                        }
                }
            }
        }),
{
    let permitted = gate_allowed && fields.test != Some(true);
    if !gate_allowed {
        record_discord_alert_status(tracker, fields, false, gate_reason, false, None);
        return ManualPushStep::Reply(reply(200, false, configured, gate_reason, false));
    }
    let mut url: Option<String> = None;
    if permitted {
        match webhook_url {
            None => {
                return ManualPushStep::Reply(reply(200, false, false, "DISCORD_NOT_CONFIGURED", false));
            },
            Some(u) => {
                if validate_discord_webhook_url(u.as_str()).is_err() {
                    return ManualPushStep::Reply(
                        reply(400, false, true, "DISCORD_WEBHOOK_URL_INVALID", false),
                    );
                }
                url = Some(u);
            },
        }
    }
    let push_key = match canonical_manual_push_key(fields) {
        Some(k) => k,
        None => {
            record_discord_alert_status(
                tracker,
                fields,
                false,
                "authoritative_signal_id_unavailable",
                false,
                None,
            );
            return ManualPushStep::Reply(
                reply(200, false, configured, "authoritative_signal_id_unavailable", false),
            );
        },
    };
    if permitted {
        let refused = limits.delivery.reserve(push_key.as_str(), cooldown_key, Some(cooldown_secs));
        assert(push_key@ == manual_key_of(*fields)->Some_0);
        assert(exists|now: u64|
            limits.delivery.state() == after_reserve(
                old(limits).delivery.state(),
                now,
                push_key@,
                opt_view(cooldown_key),
                Some(cooldown_secs),
            ));
        if let Some(reason) = refused {
            record_discord_alert_status(tracker, fields, false, reason, false, None);
            return ManualPushStep::Reply(reply(200, false, configured, reason, false));
        }
        match url {
            Some(u) => ManualPushStep::Deliver { webhook_url: u, push_key },
            None => ManualPushStep::Reply(reply(200, false, false, "DISCORD_NOT_CONFIGURED", false)),
        }
    } else {
        let refused = limits.preview.reserve(push_key.as_str(), cooldown_key, Some(cooldown_secs));
        assert(push_key@ == manual_key_of(*fields)->Some_0);
        assert(exists|now: u64|
            limits.preview.state() == after_reserve(
                old(limits).preview.state(),
                now,
                push_key@,
                opt_view(cooldown_key),
                Some(cooldown_secs),
            ));
        if let Some(reason) = refused {
            record_discord_alert_status(tracker, fields, false, reason, false, None);
            return ManualPushStep::Reply(reply(200, false, configured, reason, false));
        }
        ManualPushStep::Reply(reply(200, true, configured, "TEST_PREVIEW_ONLY", false))
    }
}

/// What a webhook delivery gave.
pub enum SendResult {
    /// Delivered at this time (RFC 3339).
    Sent(String),
    TimedOut,
    Failed,
    /// No HTTP client could be built; nothing was sent.
    ClientUnavailable,
}

/// The second step of a manual push that was allowed by the alert filter with
/// `gate_reason`: a delivery is recorded as a manual send; otherwise the
/// reservation is released and the failure is answered (and recorded,
/// unless no client could be built).
pub fn finish_manual_push(
    tracker: &mut DiscordAutoPushTracker,
    limits: &mut DiscordPushLimits,
    fields: &DiscordRequestFields,
    gate_reason: &str,
    push_key: &str,
    cooldown_key: Option<&str>,
    result: SendResult,
) -> (r: ProxyReply)
    requires
        old(tracker).wf(),
        old(limits).wf(),
    ensures
        final(tracker).wf(),
        final(limits).wf(),
        final(limits).preview == old(limits).preview,
        match result {
            SendResult::Sent(at) => {
                &&& reply_is(r, 200, true, true, "DISCORD_WEBHOOK_SENT"@, true)
                &&& final(limits).delivery == old(limits).delivery
                &&& status_recorded(
                    *old(tracker),
                    *final(tracker),
                    *fields,
                    true,
                    gate_reason@,
                    false,
                    Some(at),
                )
            },
            _ => {
                &&& final(limits).delivery.state().by_key == old(
                    limits,
                ).delivery.state().by_key.remove(push_key@)
                &&& final(limits).delivery.state().cooldowns == match cooldown_key {
                    Some(ck) => old(limits).delivery.state().cooldowns.remove(ck@),
                    None => old(limits).delivery.state().cooldowns,
                }
                &&& final(limits).delivery.state().burst == old(limits).delivery.state().burst
                &&& match result {
                    SendResult::ClientUnavailable => reply_is(
                        r,
                        502,
                        false,
                        true,
                        "DISCORD_HTTP_CLIENT_BUILD_FAILED"@,
                        false,
                    ) && *final(tracker) == *old(tracker),
                    SendResult::TimedOut => reply_is(
                        r,
                        502,
                        false,
                        true,
                        "DISCORD_WEBHOOK_TIMEOUT"@,
                        false,
                    ) && status_recorded(
                        *old(tracker),
                        *final(tracker),
                        *fields,
                        false,
                        "DISCORD_WEBHOOK_TIMEOUT"@,
                        false,
                        None,
                    ),
                    _ => reply_is(r, 502, false, true, "DISCORD_WEBHOOK_SEND_FAILED"@, false)
                        && status_recorded(
                        *old(tracker),
                        *final(tracker),
                        *fields,
                        false,
                        "DISCORD_WEBHOOK_SEND_FAILED"@,
                        false,
                        None,
                    ),
                }
            },
        },
{
    match result {
        SendResult::Sent(at) => {
            record_discord_alert_status(tracker, fields, true, gate_reason, false, Some(at));
            reply(200, true, true, "DISCORD_WEBHOOK_SENT", true)
        },
        SendResult::ClientUnavailable => {
            limits.delivery.release(push_key, cooldown_key);
            reply(502, false, true, "DISCORD_HTTP_CLIENT_BUILD_FAILED", false)
        },
        SendResult::TimedOut => {
            limits.delivery.release(push_key, cooldown_key);
            record_discord_alert_status(
                tracker,
                fields,
                false,
                "DISCORD_WEBHOOK_TIMEOUT",
                false,
                None,
            );
            reply(502, false, true, "DISCORD_WEBHOOK_TIMEOUT", false)
        },
        SendResult::Failed => {
            limits.delivery.release(push_key, cooldown_key);
            record_discord_alert_status(
                tracker,
                fields,
                false,
                "DISCORD_WEBHOOK_SEND_FAILED",
                false,
                None,
            );
            reply(502, false, true, "DISCORD_WEBHOOK_SEND_FAILED", false)
        },
    }
}

// ---------------------------------------------------------------------------
// The automatic push
// ---------------------------------------------------------------------------

/// The key an auto candidate is tracked under: its dedupe key, else its
/// id, else "unknown_candidate".
pub open spec fn candidate_key_of(fields: DiscordRequestFields) -> Seq<char> {
    match first_some(dedupe_key_of(fields), opt_string_view(fields.id)) {
        Some(k) => k,
        None => "unknown_candidate"@,
    }
}

fn candidate_key(fields: &DiscordRequestFields) -> (r: String)
    ensures
        r@ == candidate_key_of(*fields),
{
    match push_dedupe_key(fields) {
        Some(k) => k,
        None => match &fields.id {
            Some(id) => id.clone(),
            None => String::from_str("unknown_candidate"),
        },
    }
}

/// The reason an auto push reports for a limiter refusal.
pub open spec fn limited_reason(refused: Seq<char>) -> Seq<char> {
    if refused == "DUPLICATE_PUSH_SUPPRESSED"@ {
        "duplicate"@
    } else if refused == "COOLDOWN_SUPPRESSED"@ {
        "cooldown"@
    } else if refused == "RATE_LIMITED"@ {
        "rate_limited"@
    } else {
        "push_limited"@
    }
}

fn limited_reason_exec(refused: &str) -> (r: &'static str)
    ensures
        r@ == limited_reason(refused@),
{
    if crate::keyed::str_eq(refused, "DUPLICATE_PUSH_SUPPRESSED") {
        "duplicate"
    } else if crate::keyed::str_eq(refused, "COOLDOWN_SUPPRESSED") {
        "cooldown"
    } else if crate::keyed::str_eq(refused, "RATE_LIMITED") {
        "rate_limited"
    } else {
        "push_limited"
    }
}

/// The outcome of an auto push: whether it stays allowed, and why.
pub struct AutoPushDecision {
    pub allowed: bool,
    pub reason: String,
}

/// The first step of an auto push.
pub enum AutoPushStep {
    Done(AutoPushDecision),
    /// Post the message to this address; the push key, when there is one,
    /// is reserved on the delivery limiter.
    Deliver { webhook_url: String, push_key: Option<String> },
}

/// The status stored for a refusal with this reason: not eligible, not
/// sent, the status word of the reason.
pub open spec fn refusal_status(s: DiscordAlertPublicStatus, reason: Seq<char>) -> bool {
    &&& !s.auto_eligible
    &&& !s.auto_sent
    &&& s.last_decision@ == status_word(false, reason)
    &&& s.reason@ == reason
    &&& s.sent_at is None
    &&& s.manual_sent_at is None
}

/// `after` holds, under `key`, the merge of what was stored with a status
/// that satisfies `is_status`; every other key is as it was.
pub open spec fn stored_under(
    before: DiscordAutoPushTracker,
    after: DiscordAutoPushTracker,
    key: Seq<char>,
    reason: Seq<char>,
) -> bool {
    &&& after.statuses().contains_key(key)
    &&& exists|incoming: DiscordAlertPublicStatus|
        #[trigger] refusal_status(incoming, reason) && after.statuses()[key] == merged_status(
            if before.statuses().contains_key(key) {
                Some(before.statuses()[key])
            } else {
                None
            },
            incoming,
        )
    &&& forall|j: Seq<char>|
        j != key && #[trigger] after.statuses().contains_key(j) ==> before.statuses().contains_key(j)
            && after.statuses()[j] == before.statuses()[j]
}

fn store_refusal(tracker: &mut DiscordAutoPushTracker, key: &str, reason: &str)
    requires
        old(tracker).wf(),
    ensures
        final(tracker).wf(),
        final(tracker).seen_keys() == old(tracker).seen_keys(),
        stored_under(*old(tracker), *final(tracker), key@, reason@),
{
    let status = status_from_decision(false, reason, false, None);
    let ghost incoming = status;
    set_discord_alert_status(tracker, key, status);
    proof {
        assert(refusal_status(incoming, reason@));
    }
}

/// The first step of an auto push of a candidate created at
/// `created_at_ms`, for a backend booted at `booted_at_ms`. A candidate
/// from before the boot is refused (and recorded the first time it is
/// seen) unless such candidates are allowed; a candidate seen before is a
/// duplicate; then the alert filter outcome, the webhook address and the delivery
/// limiter decide, each refusal recorded under the candidate key.
pub fn begin_auto_push(
    tracker: &mut DiscordAutoPushTracker,
    limits: &mut DiscordPushLimits,
    fields: &DiscordRequestFields,
    gate_allowed: bool,
    gate_reason: &str,
    cached_on_boot_allowed: bool,
    created_at_ms: u64,
    booted_at_ms: i64,
    webhook_url: Option<String>,
    cooldown_key: Option<&str>,
    cooldown_secs: u64,
) -> (r: AutoPushStep)
    requires
        old(tracker).wf(),
        old(limits).wf(),
    ensures
        final(tracker).wf(),
        final(limits).wf(),
        final(limits).preview == old(limits).preview,
        ({
            let ck = candidate_key_of(*fields);
            let before_boot = !cached_on_boot_allowed && (created_at_ms as int) < (if booted_at_ms
                > 0 {
                booted_at_ms as int
            } else {
                0
            });
            let seen = old(tracker).seen_keys().contains(ck);
            &&& final(tracker).seen_keys().contains(ck)
            &&& if before_boot {
                &&& r matches AutoPushStep::Done(d) && !d.allowed && d.reason@ == "cached_on_boot"@
                &&& *final(limits) == *old(limits)
                &&& if seen {
                    final(tracker).statuses() == old(tracker).statuses()
                } else {
                    stored_under(*old(tracker), *final(tracker), ck, "cached_on_boot"@)
                }
            } else if seen {
                &&& r matches AutoPushStep::Done(d) && !d.allowed && d.reason@
                    == "duplicate_candidate"@
                &&& *final(limits) == *old(limits)
                &&& stored_under(*old(tracker), *final(tracker), ck, "duplicate_candidate"@)
            } else if !gate_allowed {
                &&& r matches AutoPushStep::Done(d) && !d.allowed && d.reason@ == gate_reason@
                &&& *final(limits) == *old(limits)
                &&& stored_under(*old(tracker), *final(tracker), ck, gate_reason@)
            } else if webhook_url is None {
                &&& r matches AutoPushStep::Done(d) && !d.allowed && d.reason@ == "webhook_missing"@
                &&& *final(limits) == *old(limits)
                &&& stored_under(*old(tracker), *final(tracker), ck, "webhook_missing"@)
            } else if !webhook_parts_ok(url_parts(webhook_url->Some_0@)) {
                &&& r matches AutoPushStep::Done(d) && !d.allowed && d.reason@ == "webhook_invalid"@
                &&& *final(limits) == *old(limits)
                &&& stored_under(*old(tracker), *final(tracker), ck, "webhook_invalid"@)
            } else {
                match dedupe_key_of(*fields) {
                    None => {
                        &&& r matches AutoPushStep::Deliver { webhook_url: u, push_key: p } && Some(u)
                            == webhook_url && p is None
                        &&& *final(limits) == *old(limits)
                        &&& final(tracker).statuses() == old(tracker).statuses()
                    },
                    Some(k) => exists|now: u64|
                        #![trigger after_reserve(old(limits).delivery.state(), now, k, opt_view(cooldown_key), Some(cooldown_secs))]
                        final(limits).delivery.state() == after_reserve(
                            old(limits).delivery.state(),
                            now,
                            k,
                            opt_view(cooldown_key),
                            Some(cooldown_secs),
                        ) && match refusal(old(limits).delivery.state(), now, k, opt_view(cooldown_key)) {
                            Some(refused) => r matches AutoPushStep::Done(d) && !d.allowed && d.reason@
                                == limited_reason(refused) && stored_under(
                                *old(tracker),
                                *final(tracker),
                                ck,
                                limited_reason(refused),
                            ),
                            None => r matches AutoPushStep::Deliver { webhook_url: u, push_key: p }
                                && Some(u) == webhook_url && opt_string_view(p) == Some(k)
                                && final(tracker).statuses() == old(tracker).statuses(),
                        },
                }
            }
        }),
{
    let key = candidate_key(fields);
    let boot: u64 = if booted_at_ms > 0 {
        booted_at_ms as u64
    } else {
        0
    };
    if !cached_on_boot_allowed && created_at_ms < boot {
        if tracker.mark_once(key.as_str()) {
            store_refusal(tracker, key.as_str(), "cached_on_boot");
        }
        return AutoPushStep::Done(
            AutoPushDecision { allowed: false, reason: String::from_str("cached_on_boot") },
        );
    }
    if !tracker.mark_once(key.as_str()) {
        store_refusal(tracker, key.as_str(), "duplicate_candidate");
        return AutoPushStep::Done(
            AutoPushDecision { allowed: false, reason: String::from_str("duplicate_candidate") },
        );
    }
    if !gate_allowed {
        store_refusal(tracker, key.as_str(), gate_reason);
        return AutoPushStep::Done(
            AutoPushDecision { allowed: false, reason: String::from_str(gate_reason) },
        );
    }
    let url = match webhook_url {
        None => {
            store_refusal(tracker, key.as_str(), "webhook_missing");
            return AutoPushStep::Done(
                AutoPushDecision { allowed: false, reason: String::from_str("webhook_missing") },
            );
        },
        Some(u) => u,
    };
    if validate_discord_webhook_url(url.as_str()).is_err() {
        store_refusal(tracker, key.as_str(), "webhook_invalid");
        return AutoPushStep::Done(
            AutoPushDecision { allowed: false, reason: String::from_str("webhook_invalid") },
        );
    }
    let push_key = push_dedupe_key(fields);
    match push_key {
        None => AutoPushStep::Deliver { webhook_url: url, push_key: None },
        Some(pk) => {
            let refused = limits.delivery.reserve(pk.as_str(), cooldown_key, Some(cooldown_secs));
            assert(exists|now: u64|
                limits.delivery.state() == after_reserve(
                    old(limits).delivery.state(),
                    now,
                    pk@,
                    opt_view(cooldown_key),
                    Some(cooldown_secs),
                ));
            if let Some(reason) = refused {
                let mapped = limited_reason_exec(reason);
                store_refusal(tracker, key.as_str(), mapped);
                return AutoPushStep::Done(
                    AutoPushDecision { allowed: false, reason: String::from_str(mapped) },
                );
            }
            AutoPushStep::Deliver { webhook_url: url, push_key: Some(pk) }
        },
    }
}

/// The second step of an auto push: a delivery is recorded as auto-sent
/// with reason "sent"; otherwise the reservation is released and the
/// failure is recorded and returned.
pub fn finish_auto_push(
    tracker: &mut DiscordAutoPushTracker,
    limits: &mut DiscordPushLimits,
    fields: &DiscordRequestFields,
    push_key: Option<&str>,
    cooldown_key: Option<&str>,
    result: SendResult,
) -> (r: AutoPushDecision)
    requires
        old(tracker).wf(),
        old(limits).wf(),
    ensures
        final(tracker).wf(),
        final(limits).wf(),
        final(limits).preview == old(limits).preview,
        final(tracker).seen_keys() == old(tracker).seen_keys(),
        match result {
            SendResult::Sent(at) => {
                &&& r.allowed && r.reason@ == "sent"@
                &&& *final(limits) == *old(limits)
                &&& final(tracker).statuses().contains_key(candidate_key_of(*fields))
                &&& final(tracker).statuses()[candidate_key_of(*fields)].auto_sent
                &&& final(tracker).statuses()[candidate_key_of(*fields)].sent_at == Some(at)
            },
            _ => {
                let reason = match result {
                    SendResult::ClientUnavailable => "http_client_unavailable"@,
                    SendResult::TimedOut => "timeout"@,
                    _ => "send_failed"@,
                };
                &&& !r.allowed && r.reason@ == reason
                &&& stored_under(*old(tracker), *final(tracker), candidate_key_of(*fields), reason)
                &&& match push_key {
                    Some(k) => {
                        &&& final(limits).delivery.state().by_key == old(
                            limits,
                        ).delivery.state().by_key.remove(k@)
                        &&& final(limits).delivery.state().cooldowns == match cooldown_key {
                            Some(c) => old(limits).delivery.state().cooldowns.remove(c@),
                            None => old(limits).delivery.state().cooldowns,
                        }
                        &&& final(limits).delivery.state().burst == old(
                            limits,
                        ).delivery.state().burst
                    },
                    None => *final(limits) == *old(limits),
                }
            },
        },
{
    let key = candidate_key(fields);
    match result {
        SendResult::Sent(at) => {
            let status = status_from_decision(true, "sent", true, Some(at));
            set_discord_alert_status(tracker, key.as_str(), status);
            AutoPushDecision { allowed: true, reason: String::from_str("sent") }
        },
        other => {
            if let Some(k) = push_key {
                limits.delivery.release(k, cooldown_key);
            }
            let reason: &str = match other {
                SendResult::ClientUnavailable => "http_client_unavailable",
                SendResult::TimedOut => "timeout",
                _ => "send_failed",
            };
            store_refusal(tracker, key.as_str(), reason);
            AutoPushDecision { allowed: false, reason: String::from_str(reason) }
        },
    }
}

/// The cooldown key of a push: `family:SYMBOL:type:side` for a request
/// with a symbol that is not blank. The symbol is its canonical base asset
/// when it names one, else the trimmed symbol upper-cased; type and side
/// default to `unknown`, trimmed and lower-cased.
pub open spec fn cooldown_key_of(fields: DiscordRequestFields) -> Option<Seq<char>> {
    match fields.symbol {
        Some(sym) => if trim(sym@).len() == 0 {
            None
        } else {
            let symbol = match canonical_base(trim(sym@)) {
                Some(b) => b,
                None => crate::text::upper(trim(sym@)),
            };
            Some(
                crate::discord::family_label_of(fields) + ":"@ + symbol + ":"@ + crate::text::lower(
                    trim(crate::discord::or_default(fields.signal_type, "unknown"@)),
                ) + ":"@ + crate::text::lower(trim(crate::discord::or_default(fields.side, "unknown"@))),
            )
        },
        None => None,
    }
}

pub fn push_cooldown_key(fields: &DiscordRequestFields) -> (r: Option<String>)
    ensures
        opt_string_view(r) == cooldown_key_of(*fields),
{
    let trimmed = match &fields.symbol {
        Some(s) => string_of(&trim_chars(&chars_of(s.as_str()))),
        None => return None,
    };
    let sym = chars_of(trimmed.as_str());
    if sym.len() == 0 {
        return None;
    }
    let symbol = match canonical_base_asset(trimmed.as_str()) {
        Some(b) => chars_of(b.as_str()),
        None => crate::text::upper_chars(&sym),
    };
    let signal_type = match &fields.signal_type {
        Some(t) => chars_of(t.as_str()),
        None => chars_of("unknown"),
    };
    let side = match &fields.side {
        Some(t) => chars_of(t.as_str()),
        None => chars_of("unknown"),
    };
    let mut v = chars_of(crate::discord::alert_family_label(fields));
    crate::text::push_str(&mut v, ":");
    crate::text::append_chars(&mut v, &symbol);
    crate::text::push_str(&mut v, ":");
    crate::text::append_chars(&mut v, &crate::text::lower_chars(&trim_chars(&signal_type)));
    crate::text::push_str(&mut v, ":");
    crate::text::append_chars(&mut v, &crate::text::lower_chars(&trim_chars(&side)));
    Some(crate::text::string_of(&v))
}

/// Two requests that differ at most in how they spell one base asset
/// (`BTCUSDT`, `BTC-PERP`) share one cooldown key.
pub proof fn law_cooldown_key_follows_base_asset(a: DiscordRequestFields, b: DiscordRequestFields)
    requires
        a.symbol is Some,
        b.symbol is Some,
        canonical_base(trim(a.symbol.unwrap()@)) is Some,
        canonical_base(trim(a.symbol.unwrap()@)) == canonical_base(trim(b.symbol.unwrap()@)),
        crate::discord::family_label_of(a) == crate::discord::family_label_of(b),
        opt_string_view(a.signal_type) == opt_string_view(b.signal_type),
        opt_string_view(a.side) == opt_string_view(b.side),
    ensures
        cooldown_key_of(a) == cooldown_key_of(b),
        cooldown_key_of(a) is Some,
{
    let sa = trim(a.symbol.unwrap()@);
    let sb = trim(b.symbol.unwrap()@);
    assert(sa.len() > 0);
    assert(sb.len() > 0);
}

} // verus!
