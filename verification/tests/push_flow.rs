use toxic_order_monitor::auto_tracker::DiscordAutoPushTracker;
use toxic_order_monitor::discord::DiscordRequestFields;
use toxic_order_monitor::proxy::{
    begin_auto_push, begin_manual_push, discord_channel_name, discord_webhook_url,
    finish_auto_push, finish_manual_push, AutoPushStep, ManualPushStep, SendResult,
};
use toxic_order_monitor::push_limiter::DiscordPushLimits;

const HOOK: &str = "https://discord.com/api/webhooks/1/token";

fn push_request(signal_id: Option<&str>) -> DiscordRequestFields {
    DiscordRequestFields {
        server_evidence_verified: true,
        alert_family: Some("short_toxic_order".to_string()),
        signal_id: signal_id.map(str::to_string),
        id: None,
        dedupe_key: None,
        exchange: None,
        symbol: Some("BTCUSDT".to_string()),
        signal_type: None,
        level: Some("high".to_string()),
        side: Some("buy".to_string()),
        score: Some(95),
        reason: None,
        impact: None,
        impact_level: None,
        time: None,
        price_range: None,
        candidate_type: None,
        explain_tags: None,
        perp_score: None,
        perp_candidate_type: None,
        final_candidate_type: None,
        metrics_direction: None,
        advanced_score: None,
        advanced_candidate_type: None,
        main_force_score: None,
        extreme_impact_score: None,
        structure_bias: None,
        market_structure_severity: None,
        behavior_type: None,
        behavior_state: None,
        behavior_confidence: None,
        behavior_main_force_confirmed: None,
        regime_type: None,
        spot_score: None,
        contract_score: None,
        cross_confirm_score: None,
        main_force_confirmed: None,
        signal_agreement: None,
        source_coverage: None,
        oi_score: None,
        liquidation_score: None,
        test: None,
    }
}

fn reply_reason(step: &ManualPushStep) -> String {
    match step {
        ManualPushStep::Reply(r) => r.reason.clone(),
        ManualPushStep::Deliver { .. } => "DELIVER".to_string(),
    }
}

#[test]
fn manual_push_delivers_once_then_suppresses_the_duplicate() {
    let mut tracker = DiscordAutoPushTracker::new();
    let mut limits = DiscordPushLimits::new();
    let f = push_request(Some("sig-7"));
    let step = begin_manual_push(
        &mut tracker, &mut limits, &f, true, "passed", true, Some(HOOK.to_string()), None, 60,
    );
    let key = match step {
        ManualPushStep::Deliver { webhook_url, push_key } => {
            assert_eq!(webhook_url, HOOK);
            push_key
        }
        ManualPushStep::Reply(r) => panic!("unexpected reply {}", r.reason),
    };
    assert_eq!(key, "manual:short_toxic_order:sig-7");
    let reply = finish_manual_push(
        &mut tracker,
        &mut limits,
        &f,
        "passed",
        &key,
        None,
        SendResult::Sent("2024-01-01T00:00:00Z".to_string()),
    );
    assert_eq!((reply.status, reply.ok, reply.sent), (200, true, true));
    assert_eq!(reply.reason, "DISCORD_WEBHOOK_SENT");
    let again = begin_manual_push(
        &mut tracker, &mut limits, &f, true, "passed", true, Some(HOOK.to_string()), None, 60,
    );
    assert_eq!(reply_reason(&again), "DUPLICATE_PUSH_SUPPRESSED");
}

#[test]
fn manual_push_refusals_come_in_order() {
    let mut tracker = DiscordAutoPushTracker::new();
    let mut limits = DiscordPushLimits::new();
    let f = push_request(Some("sig-8"));
    let refused = begin_manual_push(
        &mut tracker, &mut limits, &f, false, "score_below_threshold", true, None, None, 60,
    );
    assert_eq!(reply_reason(&refused), "score_below_threshold");
    let missing = begin_manual_push(&mut tracker, &mut limits, &f, true, "passed", false, None, None, 60);
    assert_eq!(reply_reason(&missing), "DISCORD_NOT_CONFIGURED");
    let invalid = begin_manual_push(
        &mut tracker,
        &mut limits,
        &f,
        true,
        "passed",
        true,
        Some("https://example.com/api/webhooks/1/t".to_string()),
        None,
        60,
    );
    match invalid {
        ManualPushStep::Reply(r) => {
            assert_eq!(r.status, 400);
            assert_eq!(r.reason, "DISCORD_WEBHOOK_URL_INVALID");
        }
        _ => panic!("expected a refusal"),
    }
    let no_id = push_request(None);
    let anonymous = begin_manual_push(
        &mut tracker, &mut limits, &no_id, true, "passed", true, Some(HOOK.to_string()), None, 60,
    );
    assert_eq!(reply_reason(&anonymous), "authoritative_signal_id_unavailable");
}

#[test]
fn test_push_is_a_preview_on_its_own_limiter() {
    let mut tracker = DiscordAutoPushTracker::new();
    let mut limits = DiscordPushLimits::new();
    let mut f = push_request(Some("sig-9"));
    f.test = Some(true);
    let preview = begin_manual_push(&mut tracker, &mut limits, &f, true, "passed", false, None, None, 60);
    match preview {
        ManualPushStep::Reply(r) => {
            assert!(r.ok);
            assert!(!r.sent);
            assert_eq!(r.reason, "TEST_PREVIEW_ONLY");
        }
        _ => panic!("a test is never delivered"),
    }
    f.test = None;
    let real = begin_manual_push(
        &mut tracker, &mut limits, &f, true, "passed", true, Some(HOOK.to_string()), None, 60,
    );
    assert_eq!(reply_reason(&real), "DELIVER");
}

#[test]
fn failed_manual_delivery_releases_the_key() {
    let mut tracker = DiscordAutoPushTracker::new();
    let mut limits = DiscordPushLimits::new();
    let f = push_request(Some("sig-10"));
    let step = begin_manual_push(
        &mut tracker, &mut limits, &f, true, "passed", true, Some(HOOK.to_string()), None, 60,
    );
    let key = match step {
        ManualPushStep::Deliver { push_key, .. } => push_key,
        _ => panic!("expected a delivery"),
    };
    let r = finish_manual_push(&mut tracker, &mut limits, &f, "passed", &key, None, SendResult::TimedOut);
    assert_eq!((r.status, r.reason.as_str()), (502, "DISCORD_WEBHOOK_TIMEOUT"));
    let retry = begin_manual_push(
        &mut tracker, &mut limits, &f, true, "passed", true, Some(HOOK.to_string()), None, 60,
    );
    assert_eq!(reply_reason(&retry), "DELIVER");
}

fn auto_reason(step: &AutoPushStep) -> String {
    match step {
        AutoPushStep::Done(d) => d.reason.clone(),
        AutoPushStep::Deliver { .. } => "DELIVER".to_string(),
    }
}

#[test]
fn auto_push_skips_cached_and_duplicate_candidates() {
    let mut tracker = DiscordAutoPushTracker::new();
    let mut limits = DiscordPushLimits::new();
    let f = push_request(Some("auto-1"));
    let cached = begin_auto_push(
        &mut tracker, &mut limits, &f, true, "passed", false, 100, 200, Some(HOOK.to_string()), None, 60,
    );
    assert_eq!(auto_reason(&cached), "cached_on_boot");
    let g = push_request(Some("auto-2"));
    let first = begin_auto_push(
        &mut tracker, &mut limits, &g, true, "passed", false, 300, 200, Some(HOOK.to_string()), None, 60,
    );
    assert_eq!(auto_reason(&first), "DELIVER");
    let push_key = match first {
        AutoPushStep::Deliver { push_key, .. } => push_key,
        _ => None,
    };
    let d = finish_auto_push(
        &mut tracker,
        &mut limits,
        &g,
        push_key.as_deref(),
        None,
        SendResult::Sent("t".to_string()),
    );
    assert!(d.allowed);
    assert_eq!(d.reason, "sent");
    let dup = begin_auto_push(
        &mut tracker, &mut limits, &g, true, "passed", false, 300, 200, Some(HOOK.to_string()), None, 60,
    );
    assert_eq!(auto_reason(&dup), "duplicate_candidate");
    assert!(tracker.status("auto-2").unwrap().auto_sent);
}

#[test]
fn auto_push_records_filter_and_webhook_refusals() {
    let mut tracker = DiscordAutoPushTracker::new();
    let mut limits = DiscordPushLimits::new();
    let f = push_request(Some("auto-3"));
    let refused = begin_auto_push(
        &mut tracker, &mut limits, &f, false, "dry_run", true, 0, 0, Some(HOOK.to_string()), None, 60,
    );
    assert_eq!(auto_reason(&refused), "dry_run");
    assert_eq!(tracker.status("auto-3").unwrap().reason, "dry_run");
    let g = push_request(Some("auto-4"));
    let missing = begin_auto_push(&mut tracker, &mut limits, &g, true, "passed", true, 0, 0, None, None, 60);
    assert_eq!(auto_reason(&missing), "webhook_missing");
    let h = push_request(Some("auto-5"));
    let bad = begin_auto_push(
        &mut tracker,
        &mut limits,
        &h,
        true,
        "passed",
        true,
        0,
        0,
        Some("http://discord.com/api/webhooks/1/t".to_string()),
        None,
        60,
    );
    assert_eq!(auto_reason(&bad), "webhook_invalid");
}

#[test]
fn webhook_and_channel_settings_ignore_blank_values() {
    assert_eq!(discord_webhook_url(Some("  "), Some(HOOK)).as_deref(), Some(HOOK));
    assert_eq!(discord_webhook_url(Some("a"), Some(HOOK)).as_deref(), Some("a"));
    assert_eq!(discord_webhook_url(None, Some(" ")), None);
    assert_eq!(discord_channel_name(Some(" ")), None);
    assert_eq!(discord_channel_name(Some("ops")).as_deref(), Some("ops"));
}
