use toxic_order_monitor::auto_tracker::{
    DiscordAlertPublicStatus, DiscordAutoPushTracker, DISCORD_AUTO_TRACKER_MAX_ENTRIES,
};
use toxic_order_monitor::discord::{
    alert_http_timeout_secs, canonical_manual_push_key, discord_dry_run, push_dedupe_key,
    webhook_delivery_permitted, DiscordRequestFields,
};
use toxic_order_monitor::proxy::{push_cooldown_key, validate_discord_webhook_url};
use toxic_order_monitor::push_limiter::{
    reserve_discord_push_for_tests, reserve_discord_push_for_tests_with_cooldown,
    reset_discord_push_limits_for_tests, DiscordPushLimiter, DiscordPushLimits,
};

pub fn request(score: Option<u8>) -> DiscordRequestFields {
    DiscordRequestFields {
        server_evidence_verified: true,
        alert_family: Some("short_toxic_order".to_string()),
        signal_id: Some("sig_001".to_string()),
        id: None,
        dedupe_key: None,
        exchange: None,
        symbol: None,
        signal_type: None,
        level: Some("high".to_string()),
        side: None,
        score,
        reason: None,
        impact: None,
        impact_level: None,
        time: None,
        price_range: None,
        candidate_type: None,
        explain_tags: None,
        perp_score: None,
        perp_candidate_type: None,
        final_candidate_type: None,
        metrics_direction: None,
        advanced_score: None,
        advanced_candidate_type: None,
        main_force_score: None,
        extreme_impact_score: None,
        structure_bias: None,
        market_structure_severity: None,
        behavior_type: None,
        behavior_state: None,
        behavior_confidence: None,
        behavior_main_force_confirmed: None,
        regime_type: None,
        spot_score: None,
        contract_score: None,
        cross_confirm_score: None,
        main_force_confirmed: None,
        signal_agreement: None,
        source_coverage: None,
        oi_score: None,
        liquidation_score: None,
        test: None,
    }
}

fn skipped(reason: &str) -> DiscordAlertPublicStatus {
    DiscordAlertPublicStatus {
        auto_eligible: false,
        auto_sent: false,
        last_decision: "skipped".to_string(),
        reason: reason.to_string(),
        sent_at: None,
        manual_sent_at: None,
    }
}

#[test]
fn discord_limiter_suppresses_same_symbol_direction_cooldown() {
    let mut limiter = DiscordPushLimiter::new();

    assert_eq!(
        limiter.reserve("sig_001", Some("BTC-PERP:spoofing:short"), Some(60)),
        None
    );
    assert_eq!(
        limiter.reserve("sig_002", Some("BTC-PERP:spoofing:short"), Some(60)),
        Some("COOLDOWN_SUPPRESSED")
    );
}

#[test]
fn test_preview_uses_limits_without_consuming_real_delivery_capacity() {
    let mut preview = DiscordPushLimiter::new();
    let mut delivery = DiscordPushLimiter::new();
    let key = "manual:short_toxic_order:canonical-signal-42";

    assert_eq!(preview.reserve(key, None, None), None);
    assert_eq!(
        preview.reserve(key, None, None),
        Some("DUPLICATE_PUSH_SUPPRESSED")
    );
    assert_eq!(delivery.reserve(key, None, None), None);
}

#[test]
fn manual_push_key_ignores_client_dedupe_and_is_always_limited() {
    let mut request = request(Some(95));
    request.signal_id = Some("canonical-signal-42".to_string());
    request.dedupe_key = Some("client-controlled-bypass".to_string());
    let key = canonical_manual_push_key(&request).expect("canonical push key");
    assert_eq!(key, "manual:short_toxic_order:canonical-signal-42");

    let mut limiter = DiscordPushLimiter::new();
    assert_eq!(limiter.reserve(&key, None, None), None);
    request.dedupe_key = Some("different-client-value".to_string());
    let same_key = canonical_manual_push_key(&request).expect("same canonical key");
    assert_eq!(same_key, key);
    assert_eq!(
        limiter.reserve(&same_key, None, None),
        Some("DUPLICATE_PUSH_SUPPRESSED")
    );

    request.signal_id = None;
    request.id = Some("legacy-client-id".to_string());
    assert!(canonical_manual_push_key(&request).is_none());
}

#[test]
fn discord_webhook_validation_only_allows_discord_https_webhooks() {
    let discord_path = "api/webhooks";
    assert!(validate_discord_webhook_url(&format!(
        "https://discord.com/{discord_path}/1/token"
    ))
    .is_ok());
    assert!(validate_discord_webhook_url(&format!(
        "https://discordapp.com/{discord_path}/1/token"
    ))
    .is_ok());
    assert!(validate_discord_webhook_url(&format!(
        "http://discord.com/{discord_path}/1/token"
    ))
    .is_err());
    assert!(
        validate_discord_webhook_url(&format!("https://127.0.0.1/{discord_path}/1/token"))
            .is_err()
    );
    assert!(validate_discord_webhook_url(&format!(
        "https://example.com/{discord_path}/1/token"
    ))
    .is_err());
    assert!(validate_discord_webhook_url("https://discord.com/not-webhooks/1/token").is_err());
}

#[test]
fn sent_auto_status_is_not_downgraded_by_duplicate_poll() {
    let mut tracker = DiscordAutoPushTracker::new();
    let sent = || DiscordAlertPublicStatus {
        auto_eligible: true,
        auto_sent: true,
        last_decision: "sent".to_string(),
        reason: "sent".to_string(),
        sent_at: Some("2026-07-15T00:00:00Z".to_string()),
        manual_sent_at: None,
    };
    tracker.set_status("signal-1", sent());
    tracker.set_status("signal-1", skipped("duplicate_candidate"));

    assert_eq!(tracker.status("signal-1"), Some(sent()));
}

#[test]
fn auto_tracker_seen_and_status_maps_are_capacity_bounded() {
    let mut tracker = DiscordAutoPushTracker::new();
    for index in 0..(DISCORD_AUTO_TRACKER_MAX_ENTRIES + 32) {
        let key = format!("signal-{index}");
        assert!(tracker.mark_once(&key));
        tracker.set_status(&key, skipped("test"));
    }

    assert!(tracker.seen_len() <= DISCORD_AUTO_TRACKER_MAX_ENTRIES);
    assert!(tracker.status_len() <= DISCORD_AUTO_TRACKER_MAX_ENTRIES);
    assert!(!tracker.has_seen("signal-0"));
    assert!(tracker.status("signal-0").is_none());
}

#[test]
fn discord_notification_routes_alert_http_timeout_uses_env_or_safe_default() {
    assert_eq!(alert_http_timeout_secs(None), 5);
    assert_eq!(alert_http_timeout_secs(Some("7")), 7);
}

#[test]
fn telegram_alert_http_timeout_uses_env_or_safe_default() {
    assert_eq!(alert_http_timeout_secs(None), 5);
    assert_eq!(alert_http_timeout_secs(Some("9")), 9);
}

#[test]
fn malformed_or_empty_dry_run_value_fails_closed() {
    for value in ["", "garbage", "2", "tru"] {
        assert!(discord_dry_run(Some(value)), "DRY_RUN={value:?} must be safe");
    }
    assert!(!discord_dry_run(Some("false")));
    assert!(discord_dry_run(None));
}

#[test]
fn test_flag_is_preview_only_even_after_a_gate_passes() {
    assert!(!webhook_delivery_permitted(true, Some(true)));
    assert!(webhook_delivery_permitted(true, Some(false)));
}

#[test]
fn timeout_zero_or_garbage_falls_back_to_five_seconds() {
    assert_eq!(alert_http_timeout_secs(Some("0")), 5);
    assert_eq!(alert_http_timeout_secs(Some("soon")), 5);
}

#[test]
fn push_dedupe_key_prefers_client_key_then_ids() {
    let mut request = request(None);
    request.dedupe_key = Some("  client-key  ".to_string());
    assert_eq!(push_dedupe_key(&request).as_deref(), Some("client-key"));
    request.dedupe_key = None;
    assert_eq!(push_dedupe_key(&request).as_deref(), Some("sig_001"));
    request.signal_id = None;
    request.id = Some("   ".to_string());
    assert_eq!(push_dedupe_key(&request), None);
}

#[test]
fn released_push_can_be_reserved_again() {
    let mut limiter = DiscordPushLimiter::new();
    assert_eq!(limiter.reserve("k", Some("c"), Some(60)), None);
    limiter.release("k", Some("c"));
    assert_eq!(limiter.reserve("k", Some("c"), Some(60)), None);
}

#[test]
fn burst_of_more_than_five_pushes_is_rate_limited() {
    let mut limiter = DiscordPushLimiter::new();
    for index in 0..5 {
        assert_eq!(limiter.reserve(&format!("k{index}"), None, None), None);
    }
    assert_eq!(limiter.reserve("k5", None, None), Some("RATE_LIMITED"));
}

#[test]
fn full_burst_window_refuses_until_the_oldest_entry_expires() {
    let mut limiter = DiscordPushLimiter::new();
    let second: u64 = 1_000_000_000;
    assert_eq!(limiter.reserve_at(second, "a", None, None), None);
    assert_eq!(limiter.reserve_at(2 * second, "a", None, None), Some("DUPLICATE_PUSH_SUPPRESSED"));
    for (index, key) in ["b", "c", "d", "e"].iter().enumerate() {
        assert_eq!(limiter.reserve_at((3 + index as u64) * second, key, None, None), None);
    }
    assert_eq!(limiter.reserve_at(10 * second, "f", None, None), Some("RATE_LIMITED"));
    assert_eq!(limiter.reserve_at(11 * second, "f", None, None), None);
}

#[test]
fn cooldown_key_canonicalizes_symbol_aliases() {
    let mut binance = request(Some(90));
    binance.symbol = Some("BTCUSDT".to_string());
    binance.signal_type = Some("spoofing".to_string());
    binance.side = Some("Ask/Sell".to_string());

    let mut canonical = request(Some(90));
    canonical.symbol = Some("BTC-PERP".to_string());
    canonical.signal_type = Some("spoofing".to_string());
    canonical.side = Some("Ask/Sell".to_string());

    assert_eq!(push_cooldown_key(&binance), push_cooldown_key(&canonical));
    assert!(push_cooldown_key(&binance).expect("cooldown key").contains(":BTC:"));
}

#[test]
fn cooldown_key_is_lowercased_and_defaults_type_and_side() {
    let mut req = request(None);
    req.symbol = Some("  eth_usdt ".to_string());
    req.signal_type = Some(" Spoofing ".to_string());
    assert_eq!(
        push_cooldown_key(&req).as_deref(),
        Some("short_toxic_order:ETH:spoofing:unknown")
    );
    req.symbol = Some("   ".to_string());
    assert_eq!(push_cooldown_key(&req), None);
}

#[test]
fn reset_forgets_keys_cooldowns_and_burst() {
    let mut limits = DiscordPushLimits::new();
    assert_eq!(reserve_discord_push_for_tests(&mut limits, "a"), None);
    assert_eq!(reserve_discord_push_for_tests(&mut limits, "a"), Some("DUPLICATE_PUSH_SUPPRESSED"));
    assert_eq!(reserve_discord_push_for_tests_with_cooldown(&mut limits, "b", "c", 60), None);
    assert_eq!(
        reserve_discord_push_for_tests_with_cooldown(&mut limits, "d", "c", 60),
        Some("COOLDOWN_SUPPRESSED")
    );
    for key in ["e", "f", "g"] {
        assert_eq!(reserve_discord_push_for_tests(&mut limits, key), None);
    }
    assert_eq!(reserve_discord_push_for_tests(&mut limits, "h"), Some("RATE_LIMITED"));
    reset_discord_push_limits_for_tests(&mut limits);
    assert_eq!(reserve_discord_push_for_tests(&mut limits, "a"), None);
    assert_eq!(reserve_discord_push_for_tests_with_cooldown(&mut limits, "k3", "c", 60), None);
}
