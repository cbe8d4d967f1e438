//! Summaries of the contract-whale monitor: the last hour of Discord
//! decisions in dry run, the status of each exchange feed, the monitor's
//! health and data-quality scores, the latest signals' summary, the note
//! attached when a request names an exchange whose contract market is off,
//! and the narrowing of the latest signals to one exchange.
use vstd::prelude::*;

use crate::text::{chars_of, contains, contains_str, eq_ignore_case_str, lower, lower_chars, string_of};
use crate::keyed::str_eq;
use crate::whale_labels::{base_asset_of, contract_base_asset, health_last_trade_at, max_opt, max_option};
use crate::text::{trim, trim_chars};
use crate::orderflow::{sat_sub, saturating_sub_i64};
use crate::whale_query::{
    direction_key, direction_word, status_code, status_word, ContractWhaleDirection,
    ContractWhaleSeverity,
};

verus! {

/// What the dry-run summary reads of a signal.
pub struct DryRunSignalFacts {
    pub ts: i64,
    pub severity: ContractWhaleSeverity,
    pub discord_would_send: bool,
    pub discord_eligible: bool,
    pub discord_reason: String,
}

/// The Discord decisions of the last hour, by outcome.
#[derive(Clone, Copy, PartialEq, Eq, Structural, Debug)]
pub struct ContractWhaleDiscordDryRunStats {
    pub signals_1h: u64,
    pub high_1h: u64,
    pub critical_1h: u64,
    pub s_1h: u64,
    pub would_send_1h: u64,
    pub skipped_cooldown_1h: u64,
    pub skipped_data_quality_1h: u64,
    pub skipped_warmup_1h: u64,
    pub skipped_display_only_1h: u64,
    pub skipped_low_score_1h: u64,
}

pub open spec fn zero_stats() -> ContractWhaleDiscordDryRunStats {
    ContractWhaleDiscordDryRunStats {
        signals_1h: 0,
        high_1h: 0,
        critical_1h: 0,
        s_1h: 0,
        would_send_1h: 0,
        skipped_cooldown_1h: 0,
        skipped_data_quality_1h: 0,
        skipped_warmup_1h: 0,
        skipped_display_only_1h: 0,
        skipped_low_score_1h: 0,
    }
}

/// Which skip bucket a reason falls in: cooldown or duplicate, data
/// quality, warm-up, display-only (medium or display), else low score.
pub enum SkipBucket {
    Cooldown,
    DataQuality,
    Warmup,
    DisplayOnly,
    LowScore,
}

pub open spec fn bucket_of(reason: Seq<char>) -> SkipBucket {
    let r = lower(reason);
    if contains(r, "cooldown"@) || contains(r, "duplicate"@) {
        SkipBucket::Cooldown
    } else if contains(r, "data_quality"@) {
        SkipBucket::DataQuality
    } else if contains(r, "warmup"@) {
        SkipBucket::Warmup
    } else if contains(r, "medium"@) || contains(r, "display"@) {
        SkipBucket::DisplayOnly
    } else {
        SkipBucket::LowScore
    }
}

/// The counters after one more signal of the hour.
pub open spec fn count_signal(s: ContractWhaleDiscordDryRunStats, f: DryRunSignalFacts) -> ContractWhaleDiscordDryRunStats {
    let s1 = ContractWhaleDiscordDryRunStats { signals_1h: (s.signals_1h + 1) as u64, ..s };
    let s2 = match f.severity {
        ContractWhaleSeverity::High => ContractWhaleDiscordDryRunStats { high_1h: (s1.high_1h + 1) as u64, ..s1 },
        ContractWhaleSeverity::Critical => ContractWhaleDiscordDryRunStats {
            critical_1h: (s1.critical_1h + 1) as u64,
            ..s1
        },
        ContractWhaleSeverity::S => ContractWhaleDiscordDryRunStats { s_1h: (s1.s_1h + 1) as u64, ..s1 },
        _ => s1,
    };
    if f.discord_would_send || f.discord_eligible {
        ContractWhaleDiscordDryRunStats { would_send_1h: (s2.would_send_1h + 1) as u64, ..s2 }
    } else {
        match bucket_of(f.discord_reason@) {
            SkipBucket::Cooldown => ContractWhaleDiscordDryRunStats {
                skipped_cooldown_1h: (s2.skipped_cooldown_1h + 1) as u64,
                ..s2
            },
            SkipBucket::DataQuality => ContractWhaleDiscordDryRunStats {
                skipped_data_quality_1h: (s2.skipped_data_quality_1h + 1) as u64,
                ..s2
            },
            SkipBucket::Warmup => ContractWhaleDiscordDryRunStats {
                skipped_warmup_1h: (s2.skipped_warmup_1h + 1) as u64,
                ..s2
            },
            SkipBucket::DisplayOnly => ContractWhaleDiscordDryRunStats {
                skipped_display_only_1h: (s2.skipped_display_only_1h + 1) as u64,
                ..s2
            },
            SkipBucket::LowScore => ContractWhaleDiscordDryRunStats {
                skipped_low_score_1h: (s2.skipped_low_score_1h + 1) as u64,
                ..s2
            },
        }
    }
}

/// The counters of the signals of `items` at or after `from`.
pub open spec fn stats_of(items: Seq<DryRunSignalFacts>, from: i64) -> ContractWhaleDiscordDryRunStats
    decreases items.len(),
{
    if items.len() == 0 {
        zero_stats()
    } else {
        let rest = stats_of(items.drop_last(), from);
        if items.last().ts >= from {
            count_signal(rest, items.last())
        } else {
            rest
        }
    }
}

/// Every counter of `s` is at most `n`.
pub open spec fn bounded(s: ContractWhaleDiscordDryRunStats, n: int) -> bool {
    &&& s.signals_1h <= n
    &&& s.high_1h <= s.signals_1h
    &&& s.critical_1h <= s.signals_1h
    &&& s.s_1h <= s.signals_1h
    &&& s.would_send_1h <= s.signals_1h
    &&& s.skipped_cooldown_1h <= s.signals_1h
    &&& s.skipped_data_quality_1h <= s.signals_1h
    &&& s.skipped_warmup_1h <= s.signals_1h
    &&& s.skipped_display_only_1h <= s.signals_1h
    &&& s.skipped_low_score_1h <= s.signals_1h
}

proof fn lemma_stats_bounded(items: Seq<DryRunSignalFacts>, from: i64)
    requires
        items.len() < u64::MAX,
    ensures
        bounded(stats_of(items, from), items.len() as int),
    decreases items.len(),
{
    if items.len() > 0 {
        lemma_stats_bounded(items.drop_last(), from);
    }
}

fn skip_bucket(reason: &str) -> (r: SkipBucket)
    ensures
        r == bucket_of(reason@),
{
    let r = lower_chars(&chars_of(reason));
    if contains_str(&r, "cooldown") || contains_str(&r, "duplicate") {
        SkipBucket::Cooldown
    } else if contains_str(&r, "data_quality") {
        SkipBucket::DataQuality
    } else if contains_str(&r, "warmup") {
        SkipBucket::Warmup
    } else if contains_str(&r, "medium") || contains_str(&r, "display") {
        SkipBucket::DisplayOnly
    } else {
        SkipBucket::LowScore
    }
}

/// `now - 1h`, clamped to the `i64` range.
pub open spec fn hour_before(now: i64) -> i64 {
    if now - 3_600_000 < i64::MIN {
        i64::MIN
    } else {
        (now - 3_600_000) as i64
    }
}

/// The dry-run Discord summary of the signals of the hour before `now`:
/// how many there were, by severity, how many would have been sent, and
/// why the others were skipped.
pub fn discord_dry_run_stats(items: &Vec<DryRunSignalFacts>, now: i64) -> (r:
    ContractWhaleDiscordDryRunStats)
    requires
        items@.len() < u64::MAX,
    ensures
        r == stats_of(items@, hour_before(now)),
{
    let from: i64 = if now < i64::MIN + 3_600_000 {
        i64::MIN
    } else {
        now - 3_600_000
    };
    let mut s = ContractWhaleDiscordDryRunStats {
        signals_1h: 0,
        high_1h: 0,
        critical_1h: 0,
        s_1h: 0,
        would_send_1h: 0,
        skipped_cooldown_1h: 0,
        skipped_data_quality_1h: 0,
        skipped_warmup_1h: 0,
        skipped_display_only_1h: 0,
        skipped_low_score_1h: 0,
    };
    let mut i: usize = 0;
    proof {
        assert(items@.take(0) =~= Seq::<DryRunSignalFacts>::empty());
    }
    while i < items.len()
        invariant
            items@.len() < u64::MAX,
            i <= items@.len(),
            from == hour_before(now),
            s == stats_of(items@.take(i as int), from),
        decreases items.len() - i,
    {
        proof {
            lemma_stats_bounded(items@.take(i as int), from);
            assert(items@.take(i + 1).drop_last() =~= items@.take(i as int));
        }
        let f = &items[i];
        if f.ts >= from {
            s.signals_1h = s.signals_1h + 1;
            match f.severity {
                ContractWhaleSeverity::High => s.high_1h = s.high_1h + 1,
                ContractWhaleSeverity::Critical => s.critical_1h = s.critical_1h + 1,
                ContractWhaleSeverity::S => s.s_1h = s.s_1h + 1,
                _ => {},
            }
            if f.discord_would_send || f.discord_eligible {
                s.would_send_1h = s.would_send_1h + 1;
            } else {
                match skip_bucket(f.discord_reason.as_str()) {
                    SkipBucket::Cooldown => s.skipped_cooldown_1h = s.skipped_cooldown_1h + 1,
                    SkipBucket::DataQuality => s.skipped_data_quality_1h = s.skipped_data_quality_1h
                        + 1,
                    SkipBucket::Warmup => s.skipped_warmup_1h = s.skipped_warmup_1h + 1,
                    SkipBucket::DisplayOnly => s.skipped_display_only_1h = s.skipped_display_only_1h
                        + 1,
                    SkipBucket::LowScore => s.skipped_low_score_1h = s.skipped_low_score_1h + 1,
                }
            }
        }
        i = i + 1;
    }
    proof {
        assert(items@.take(items@.len() as int) =~= items@);
    }
    s
}

/// The connection state a venue's health reports.
#[derive(Clone, Copy, PartialEq, Eq, Structural, Debug)]
pub enum VenueConnectionStatus {
    Connected,
    Connecting,
    Reconnecting,
    Disconnected,
    Disabled,
}

pub open spec fn exchange_status_of(
    platform_enabled: bool,
    contract_enabled: bool,
    connected: bool,
    health: Option<VenueConnectionStatus>,
) -> Seq<char> {
    if !platform_enabled {
        "disabled"@
    } else if !contract_enabled {
        "spot_only"@
    } else if connected {
        "connected"@
    } else {
        match health {
            Some(VenueConnectionStatus::Reconnecting) | Some(VenueConnectionStatus::Connecting) => "reconnecting"@,
            Some(VenueConnectionStatus::Disabled) => "disabled"@,
            _ => "disconnected"@,
        }
    }
}

/// The status label of an exchange feed: disabled, spot only, connected,
/// else what its health says (reconnecting, disabled or disconnected).
pub fn exchange_status_label(
    platform_enabled: bool,
    contract_enabled: bool,
    connected: bool,
    health: Option<VenueConnectionStatus>,
) -> (r: &'static str)
    ensures
        r@ == exchange_status_of(platform_enabled, contract_enabled, connected, health),
{
    if !platform_enabled {
        return "disabled";
    }
    if !contract_enabled {
        return "spot_only";
    }
    if connected {
        return "connected";
    }
    match health {
        Some(VenueConnectionStatus::Reconnecting) | Some(VenueConnectionStatus::Connecting) => "reconnecting",
        Some(VenueConnectionStatus::Disabled) => "disabled",
        _ => "disconnected",
    }
}

/// How an exchange is configured, as far as the mismatch note reads it.
#[derive(Clone, Copy)]
pub struct ExchangePlatform {
    pub enabled: bool,
    pub perp_enabled: bool,
    pub spot_enabled: bool,
    pub contract_markets_enabled: bool,
}

/// The note on a response for an exchange whose contract market is off.
pub struct ContractWhaleResponseMeta {
    pub exchange: Option<String>,
    pub market_type: Option<String>,
    pub exchange_status: Option<String>,
    pub reason: Option<String>,
}

pub open spec fn mismatch_reason(exchange: Seq<char>, p: ExchangePlatform) -> Seq<char> {
    if lower(exchange) == "coinbase"@ && p.enabled && p.spot_enabled {
        "coinbase_perp_disabled"@
    } else if p.enabled && p.spot_enabled {
        "perp_market_disabled"@
    } else if p.enabled {
        "contract_market_disabled"@
    } else {
        "exchange_disabled"@
    }
}

pub open spec fn opt_view(o: Option<String>) -> Option<Seq<char>> {
    match o {
        Some(s) => Some(s@),
        None => None,
    }
}

/// The note for a request naming `exchange` configured as `platform` (none
/// when the exchange is unknown or its perpetual market is on): the
/// exchange, the perp market, its status (spot only or disabled) and why.
pub fn contract_market_mismatch_meta(exchange: Option<&str>, platform: Option<ExchangePlatform>) -> (r:
    Option<ContractWhaleResponseMeta>)
    ensures
        (exchange is None || platform is None || platform->0.perp_enabled) ==> r is None,
        (exchange is Some && platform is Some && !platform->0.perp_enabled) ==> {
            let x = exchange->0;
            let p = platform->0;
            &&& r is Some
            &&& opt_view(r->0.exchange) == Some(x@)
            &&& opt_view(r->0.market_type) == Some("perp"@)
            &&& opt_view(r->0.exchange_status) == Some(
                if p.enabled && p.spot_enabled && !p.contract_markets_enabled {
                    "spot_only"@
                } else {
                    "disabled"@
                },
            )
            &&& opt_view(r->0.reason) == Some(mismatch_reason(x@, p))
        },
{
    let x = match exchange {
        Some(x) => x,
        None => return None,
    };
    let p = match platform {
        Some(p) => p,
        None => return None,
    };
    if p.perp_enabled {
        return None;
    }
    proof {
        reveal_strlit("coinbase");
        assert(lower("coinbase"@) =~= "coinbase"@);
    }
    let reason: &str = if eq_ignore_case_str(&chars_of(x), "coinbase") && p.enabled
        && p.spot_enabled {
        "coinbase_perp_disabled"
    } else if p.enabled && p.spot_enabled {
        "perp_market_disabled"
    } else if p.enabled {
        "contract_market_disabled"
    } else {
        "exchange_disabled"
    };
    let status: &str = if p.enabled && p.spot_enabled && !p.contract_markets_enabled {
        "spot_only"
    } else {
        "disabled"
    };
    Some(
        ContractWhaleResponseMeta {
            exchange: Some(String::from_str(x)),
            market_type: Some(String::from_str("perp")),
            exchange_status: Some(String::from_str(status)),
            reason: Some(String::from_str(reason)),
        },
    )
}

/// A venue counts as connected when its socket is up, trades flow, or its
/// status says so.
pub fn health_connected(ws_connected: bool, trade_active: bool, status: VenueConnectionStatus) -> (r:
    bool)
    ensures
        r == (ws_connected || trade_active || status == VenueConnectionStatus::Connected),
{
    ws_connected || trade_active || status == VenueConnectionStatus::Connected
}

/// The last trade an exchange feed has seen.
pub struct ExchangeLastTrade {
    pub exchange: String,
    pub last_trade_at: Option<i64>,
}

/// The last trade of `exchange` among `statuses` (the first entry of that
/// name), if it has one.
pub open spec fn last_trade_in(statuses: Seq<ExchangeLastTrade>, exchange: Seq<char>) -> Option<i64>
    decreases statuses.len(),
{
    if statuses.len() == 0 {
        None
    } else if statuses[0].exchange@ == exchange {
        statuses[0].last_trade_at
    } else {
        last_trade_in(statuses.drop_first(), exchange)
    }
}

/// The exchange traded within `silence_ms` of `now`.
pub open spec fn recent_in(statuses: Seq<ExchangeLastTrade>, exchange: Seq<char>, now: i64, silence_ms: int) -> bool {
    last_trade_in(statuses, exchange) matches Some(t) && sat_sub(now as int, t as int) <= silence_ms
}

/// How long an exchange may be silent and still count as recent.
pub open spec fn silence_allowed(exchange: Seq<char>) -> int {
    if exchange == "bitfinex"@ {
        60_000
    } else {
        30_000
    }
}

/// How many of `exchanges` traded recently.
pub open spec fn recent_count(exchanges: Seq<String>, statuses: Seq<ExchangeLastTrade>, now: i64) -> nat
    decreases exchanges.len(),
{
    if exchanges.len() == 0 {
        0
    } else {
        let e = exchanges.last()@;
        recent_count(exchanges.drop_last(), statuses, now) + if recent_in(
            statuses,
            e,
            now,
            silence_allowed(e),
        ) {
            1nat
        } else {
            0nat
        }
    }
}

/// Some primary exchange traded within half a minute.
pub open spec fn any_primary_recent(primary: Seq<String>, statuses: Seq<ExchangeLastTrade>, now: i64) -> bool {
    exists|i: int| 0 <= i < primary.len() && recent_in(statuses, #[trigger] primary[i]@, now, 30_000)
}

/// No exchange traded within the last minute.
pub open spec fn all_stale(exchanges: Seq<String>, statuses: Seq<ExchangeLastTrade>, now: i64) -> bool {
    forall|i: int|
        0 <= i < exchanges.len() ==> match last_trade_in(statuses, #[trigger] exchanges[i]@) {
            Some(t) => sat_sub(now as int, t as int) > 60_000,
            None => true,
        }
}

/// The health of the monitor and its reason: disabled, warming up, else
/// by how many enabled exchanges traded recently and whether a primary one
/// did.
pub open spec fn health_of(
    enabled: bool,
    warming_up: bool,
    exchanges: Seq<String>,
    primary: Seq<String>,
    statuses: Seq<ExchangeLastTrade>,
    now: i64,
) -> (Seq<char>, Seq<char>) {
    if !enabled {
        ("disabled"@, "contract_whale_monitor_disabled"@)
    } else if warming_up {
        ("warming_up"@, "warmup_collect_only"@)
    } else if exchanges.len() == 0 {
        ("unhealthy"@, "no_enabled_contract_exchanges"@)
    } else {
        let n = recent_count(exchanges, statuses, now);
        let primary_recent = any_primary_recent(primary, statuses, now);
        if n == exchanges.len() && primary_recent {
            ("healthy"@, "enabled_sources_recent"@)
        } else if n > 0 {
            (
                "degraded"@,
                if primary_recent {
                    "partial_sources_recent"@
                } else {
                    "primary_source_missing"@
                },
            )
        } else if all_stale(exchanges, statuses, now) {
            ("unhealthy"@, "all_sources_no_recent_trades"@)
        } else {
            ("unhealthy"@, "primary_sources_disconnected"@)
        }
    }
}

/// The last trade of `exchange` among `statuses`.
fn last_trade_lookup(statuses: &Vec<ExchangeLastTrade>, exchange: &str) -> (r: Option<i64>)
    ensures
        r == last_trade_in(statuses@, exchange@),
{
    let mut i: usize = 0;
    proof {
        assert(statuses@.skip(0) =~= statuses@);
    }
    while i < statuses.len()
        invariant
            i <= statuses@.len(),
            last_trade_in(statuses@, exchange@) == last_trade_in(statuses@.skip(i as int), exchange@),
        decreases statuses.len() - i,
    {
        proof {
            let rest = statuses@.skip(i as int);
            assert(rest[0] == statuses@[i as int]);
            assert(rest.drop_first() =~= statuses@.skip(i + 1));
        }
        if str_eq(statuses[i].exchange.as_str(), exchange) {
            return statuses[i].last_trade_at;
        }
        i = i + 1;
    }
    proof {
        assert(statuses@.skip(i as int).len() == 0);
    }
    None
}

fn recent_exec(statuses: &Vec<ExchangeLastTrade>, exchange: &str, now: i64, silence_ms: i64) -> (r:
    bool)
    ensures
        r == recent_in(statuses@, exchange@, now, silence_ms as int),
{
    match last_trade_lookup(statuses, exchange) {
        Some(t) => saturating_sub_i64(now, t) <= silence_ms,
        None => false,
    }
}

/// The health of the contract-whale monitor at `now` and its reason; see
/// `health_of`. `statuses` holds the last trade of each exchange feed.
pub fn contract_whale_health_status(
    enabled: bool,
    warming_up: bool,
    enabled_exchanges: &Vec<String>,
    primary_exchanges: &Vec<String>,
    statuses: &Vec<ExchangeLastTrade>,
    now: i64,
) -> (r: (String, String))
    ensures
        (r.0@, r.1@) == health_of(
            enabled,
            warming_up,
            enabled_exchanges@,
            primary_exchanges@,
            statuses@,
            now,
        ),
{
    if !enabled {
        return (
            String::from_str("disabled"),
            String::from_str("contract_whale_monitor_disabled"),
        );
    }
    if warming_up {
        return (String::from_str("warming_up"), String::from_str("warmup_collect_only"));
    }
    let n = enabled_exchanges.len();
    if n == 0 {
        return (String::from_str("unhealthy"), String::from_str("no_enabled_contract_exchanges"));
    }
    let ghost ex = enabled_exchanges@;
    let mut recent: usize = 0;
    let mut stale = true;
    let mut i: usize = 0;
    while i < n
        invariant
            n == ex.len(),
            ex == enabled_exchanges@,
            i <= n,
            recent <= i,
            recent == recent_count(ex.take(i as int), statuses@, now),
            stale == all_stale(ex.take(i as int), statuses@, now),
        decreases n - i,
    {
        let e = enabled_exchanges[i].as_str();
        proof {
            reveal_strlit("bitfinex");
            assert(ex.take(i + 1).drop_last() =~= ex.take(i as int));
            assert(ex.take(i + 1).last() == ex[i as int]);
        }
        let silence: i64 = if str_eq(e, "bitfinex") {
            60_000
        } else {
            30_000
        };
        if recent_exec(statuses, e, now, silence) {
            recent = recent + 1;
        }
        let last = last_trade_lookup(statuses, e);
        let old_one: bool = match last {
            Some(t) => saturating_sub_i64(now, t) > 60_000,
            None => true,
        };
        proof {
            let t1 = ex.take(i + 1);
            let t0 = ex.take(i as int);
            if stale && old_one {
                assert forall|j: int| 0 <= j < t1.len() implies match last_trade_in(
                    statuses@,
                    #[trigger] t1[j]@,
                ) {
                    Some(t) => sat_sub(now as int, t as int) > 60_000,
                    None => true,
                } by {
                    if j < i {
                        assert(t1[j] == t0[j]);
                    }
                }
            }
            if !(stale && old_one) {
                if !stale {
                    let j = choose|j: int|
                        0 <= j < t0.len() && !match last_trade_in(statuses@, #[trigger] t0[j]@) {
                            Some(t) => sat_sub(now as int, t as int) > 60_000,
                            None => true,
                        };
                    assert(t1[j] == t0[j]);
                } else {
                    assert(t1[i as int] == ex[i as int]);
                }
            }
        }
        stale = stale && old_one;
        i = i + 1;
    }
    proof {
        assert(ex.take(n as int) =~= ex);
    }
    let m = primary_exchanges.len();
    let mut primary_recent = false;
    let mut k: usize = 0;
    while k < m
        invariant
            m == primary_exchanges@.len(),
            k <= m,
            primary_recent == exists|j: int|
                0 <= j < k && recent_in(statuses@, #[trigger] primary_exchanges@[j]@, now, 30_000),
        decreases m - k,
    {
        let hit = recent_exec(statuses, primary_exchanges[k].as_str(), now, 30_000);
        proof {
            if hit {
                assert(recent_in(statuses@, primary_exchanges@[k as int]@, now, 30_000));
            }
        }
        primary_recent = primary_recent || hit;
        k = k + 1;
    }
    if recent == n && primary_recent {
        (String::from_str("healthy"), String::from_str("enabled_sources_recent"))
    } else if recent > 0 {
        (
            String::from_str("degraded"),
            String::from_str(
                if primary_recent {
                    "partial_sources_recent"
                } else {
                    "primary_source_missing"
                },
            ),
        )
    } else if stale {
        (String::from_str("unhealthy"), String::from_str("all_sources_no_recent_trades"))
    } else {
        (String::from_str("unhealthy"), String::from_str("primary_sources_disconnected"))
    }
}

/// What a venue's health report says, as far as an exchange status reads
/// it.
#[derive(Clone, Copy)]
pub struct VenueHealthFacts {
    pub ws_connected: bool,
    pub trade_active: bool,
    pub status: VenueConnectionStatus,
    pub last_trade_ts: Option<i64>,
    pub last_trade_message_at_ms: Option<i64>,
    pub last_parsed_trade_at_ms: Option<i64>,
    pub ws_reconnect_count: u64,
    pub reconnect_count: u64,
}

/// How an exchange is configured: whether the monitor is on, whether any
/// of the exchange's markets is, its contract market, and its spot market.
#[derive(Clone, Copy)]
pub struct ExchangeSwitches {
    pub monitor_enabled: bool,
    pub any_market_enabled: bool,
    pub contract_enabled: bool,
    pub spot_enabled: bool,
}

/// The status of one exchange feed.
pub struct ExchangeFeedStatus {
    pub connected: bool,
    pub status: String,
    pub last_trade_at: Option<i64>,
    pub latency_ms: Option<i64>,
    pub reconnect_count: u64,
    pub platform_enabled: bool,
    pub contract_enabled: bool,
}

pub open spec fn health_trade_at(h: VenueHealthFacts) -> Option<i64> {
    max_opt(max_opt(h.last_trade_ts, h.last_trade_message_at_ms), h.last_parsed_trade_at_ms)
}

/// The last trade of a feed: for a contract market the later of the flow's
/// and the health report's; for a spot-only platform the health report's;
/// else none.
pub open spec fn feed_last_trade(
    sw: ExchangeSwitches,
    flow_last_trade: Option<i64>,
    health: Option<VenueHealthFacts>,
) -> Option<i64> {
    let from_health = match health {
        Some(h) => health_trade_at(h),
        None => None,
    };
    if sw.monitor_enabled && sw.contract_enabled {
        max_opt(flow_last_trade, from_health)
    } else if sw.monitor_enabled && sw.any_market_enabled && sw.spot_enabled {
        from_health
    } else {
        None
    }
}

pub open spec fn health_status_of(health: Option<VenueHealthFacts>) -> Option<VenueConnectionStatus> {
    match health {
        Some(h) => Some(h.status),
        None => None,
    }
}

/// The status of a feed at `now` from its switches, the flow's last trade
/// and the health report: see `exchange_feed_status`.
pub open spec fn feed_status_ok(
    r: ExchangeFeedStatus,
    sw: ExchangeSwitches,
    flow_last_trade: Option<i64>,
    health: Option<VenueHealthFacts>,
    now: i64,
) -> bool {
    &&& r.platform_enabled == (sw.monitor_enabled && sw.any_market_enabled)
    &&& r.contract_enabled == (sw.monitor_enabled && sw.contract_enabled)
    &&& r.last_trade_at == feed_last_trade(sw, flow_last_trade, health)
    &&& r.reconnect_count == match health {
        Some(h) => if h.ws_reconnect_count >= h.reconnect_count {
            h.ws_reconnect_count
        } else {
            h.reconnect_count
        },
        None => 0,
    }
    &&& r.connected == (r.contract_enabled && (match health {
        Some(h) => h.ws_connected || h.trade_active || h.status
            == VenueConnectionStatus::Connected,
        None => false,
    } || (r.last_trade_at matches Some(t) && sat_sub(now as int, t as int) <= 30_000)))
    &&& r.status@ == exchange_status_of(
        r.platform_enabled,
        r.contract_enabled,
        r.connected,
        health_status_of(health),
    )
    &&& r.latency_ms == match r.last_trade_at {
        Some(t) => {
            let d = sat_sub(now as int, t as int);
            let age = if d < 0 {
                0
            } else {
                d
            };
            if age <= 86_400_000 {
                Some(age as i64)
            } else {
                None
            }
        },
        None => None,
    }
}

/// The status of an exchange feed at `now`. Its contract market counts as
/// connected when the health report says so or it traded within half a
/// minute; the latency is the age of the last trade when under a day.
pub fn exchange_feed_status(
    sw: ExchangeSwitches,
    flow_last_trade: Option<i64>,
    health: Option<VenueHealthFacts>,
    now: i64,
) -> (r: ExchangeFeedStatus)
    ensures
        feed_status_ok(r, sw, flow_last_trade, health, now),
{
    let platform_enabled = sw.monitor_enabled && sw.any_market_enabled;
    let contract_enabled = sw.monitor_enabled && sw.contract_enabled;
    let from_health: Option<i64> = match &health {
        Some(h) => health_last_trade_at(
            h.last_trade_ts,
            h.last_trade_message_at_ms,
            h.last_parsed_trade_at_ms,
        ),
        None => None,
    };
    let last_trade_at = if contract_enabled {
        max_option(flow_last_trade, from_health)
    } else if platform_enabled && sw.spot_enabled {
        from_health
    } else {
        None
    };
    let reconnect_count: u64 = match &health {
        Some(h) => if h.ws_reconnect_count >= h.reconnect_count {
            h.ws_reconnect_count
        } else {
            h.reconnect_count
        },
        None => 0,
    };
    let health_up = match &health {
        Some(h) => health_connected(h.ws_connected, h.trade_active, h.status),
        None => false,
    };
    let flow_up = match last_trade_at {
        Some(t) => saturating_sub_i64(now, t) <= 30_000,
        None => false,
    };
    let connected = contract_enabled && (health_up || flow_up);
    let health_status = match &health {
        Some(h) => Some(h.status),
        None => None,
    };
    let status = exchange_status_label(platform_enabled, contract_enabled, connected, health_status);
    let latency_ms = match last_trade_at {
        Some(t) => {
            let d = saturating_sub_i64(now, t);
            let age: i64 = if d < 0 {
                0
            } else {
                d
            };
            if age <= 86_400_000 {
                Some(age)
            } else {
                None
            }
        },
        None => None,
    };
    ExchangeFeedStatus {
        connected,
        status: String::from_str(status),
        last_trade_at,
        latency_ms,
        reconnect_count,
        platform_enabled,
        contract_enabled,
    }
}

/// How many of `exchanges` traded within half a minute.
pub open spec fn recent_within(exchanges: Seq<String>, statuses: Seq<ExchangeLastTrade>, now: i64) -> nat
    decreases exchanges.len(),
{
    if exchanges.len() == 0 {
        0
    } else {
        recent_within(exchanges.drop_last(), statuses, now) + if recent_in(
            statuses,
            exchanges.last()@,
            now,
            30_000,
        ) {
            1nat
        } else {
            0nat
        }
    }
}

/// Every primary exchange that is active traded within half a minute.
pub open spec fn active_primaries_recent(
    primary: Seq<String>,
    active: Seq<String>,
    statuses: Seq<ExchangeLastTrade>,
    now: i64,
) -> bool {
    forall|i: int|
        0 <= i < primary.len() && (exists|j: int| 0 <= j < active.len() && active[j]@ == (
        #[trigger] primary[i])@) ==> recent_in(statuses, primary[i]@, now, 30_000)
}

/// Less `d`, never below zero.
pub open spec fn minus_floor(score: int, d: int) -> int {
    if score >= d {
        score - d
    } else {
        0
    }
}

/// The quality of the contract data: by how many active exchanges traded
/// within half a minute and whether every active primary one did; twenty
/// points less while warming up.
pub open spec fn contract_quality_of(
    active: Seq<String>,
    primary: Seq<String>,
    statuses: Seq<ExchangeLastTrade>,
    now: i64,
    warmup_active: bool,
) -> int {
    if active.len() == 0 {
        0
    } else {
        let n = recent_within(active, statuses, now);
        let primary_recent = active_primaries_recent(primary, active, statuses, now);
        let base: int = if n == 0 {
            20
        } else if n == active.len() && primary_recent {
            95
        } else if primary_recent && n + 1 >= active.len() {
            78
        } else if primary_recent {
            72
        } else {
            58
        };
        if warmup_active {
            minus_floor(base, 20)
        } else {
            base
        }
    }
}

/// The quality of the spot data: by how many spot sources traded within
/// half a minute; ten points less while warming up.
pub open spec fn spot_quality_of(
    spot_sources: Seq<String>,
    statuses: Seq<ExchangeLastTrade>,
    now: i64,
    warmup_active: bool,
) -> int {
    if spot_sources.len() == 0 {
        0
    } else {
        let n = recent_within(spot_sources, statuses, now);
        let base: int = if n == 0 {
            25
        } else if n == spot_sources.len() {
            92
        } else if n + 1 >= spot_sources.len() {
            78
        } else {
            60
        };
        if warmup_active {
            minus_floor(base, 10)
        } else {
            base
        }
    }
}

fn count_recent(exchanges: &Vec<String>, statuses: &Vec<ExchangeLastTrade>, now: i64) -> (r: usize)
    ensures
        r == recent_within(exchanges@, statuses@, now),
        r <= exchanges@.len(),
{
    let ghost ex = exchanges@;
    let mut count: usize = 0;
    let mut i: usize = 0;
    while i < exchanges.len()
        invariant
            ex == exchanges@,
            i <= ex.len(),
            count <= i,
            count == recent_within(ex.take(i as int), statuses@, now),
        decreases exchanges.len() - i,
    {
        proof {
            assert(ex.take(i + 1).drop_last() =~= ex.take(i as int));
            assert(ex.take(i + 1).last() == ex[i as int]);
        }
        if recent_exec(statuses, exchanges[i].as_str(), now, 30_000) {
            count = count + 1;
        }
        i = i + 1;
    }
    proof {
        assert(ex.take(i as int) =~= ex);
    }
    count
}

fn listed(list: &Vec<String>, name: &str) -> (r: bool)
    ensures
        r == exists|j: int| 0 <= j < list@.len() && list@[j]@ == name@,
{
    let mut i: usize = 0;
    while i < list.len()
        invariant
            i <= list@.len(),
            forall|j: int| 0 <= j < i ==> list@[j]@ != name@,
        decreases list.len() - i,
    {
        if str_eq(list[i].as_str(), name) {
            return true;
        }
        i = i + 1;
    }
    false
}

/// The contract data-quality score at `now`; see `contract_quality_of`.
pub fn contract_data_quality_score(
    active_contract_exchanges: &Vec<String>,
    primary_exchanges: &Vec<String>,
    statuses: &Vec<ExchangeLastTrade>,
    now: i64,
    warmup_active: bool,
) -> (r: u8)
    ensures
        r == contract_quality_of(
            active_contract_exchanges@,
            primary_exchanges@,
            statuses@,
            now,
            warmup_active,
        ),
{
    let n = active_contract_exchanges.len();
    if n == 0 {
        return 0;
    }
    let recent = count_recent(active_contract_exchanges, statuses, now);
    let mut all_primary = true;
    let mut i: usize = 0;
    while i < primary_exchanges.len()
        invariant
            i <= primary_exchanges@.len(),
            all_primary == forall|k: int|
                0 <= k < i && (exists|j: int|
                    0 <= j < active_contract_exchanges@.len() && active_contract_exchanges@[j]@ == (
                    #[trigger] primary_exchanges@[k])@) ==> recent_in(
                    statuses@,
                    primary_exchanges@[k]@,
                    now,
                    30_000,
                ),
        decreases primary_exchanges.len() - i,
    {
        let p = primary_exchanges[i].as_str();
        let ok = if listed(active_contract_exchanges, p) {
            recent_exec(statuses, p, now, 30_000)
        } else {
            true
        };
        all_primary = all_primary && ok;
        i = i + 1;
    }
    let base: u8 = if recent == 0 {
        20
    } else if recent == n && all_primary {
        95
    } else if all_primary && recent + 1 >= n {
        78
    } else if all_primary {
        72
    } else {
        58
    };
    if warmup_active {
        if base >= 20 {
            base - 20
        } else {
            0
        }
    } else {
        base
    }
}

/// The spot data-quality score at `now`; see `spot_quality_of`.
pub fn spot_data_quality_score(
    spot_sources: &Vec<String>,
    statuses: &Vec<ExchangeLastTrade>,
    now: i64,
    warmup_active: bool,
) -> (r: u8)
    ensures
        r == spot_quality_of(spot_sources@, statuses@, now, warmup_active),
{
    let n = spot_sources.len();
    if n == 0 {
        return 0;
    }
    let recent = count_recent(spot_sources, statuses, now);
    let base: u8 = if recent == 0 {
        25
    } else if recent == n {
        92
    } else if recent + 1 >= n {
        78
    } else {
        60
    };
    if warmup_active {
        if base >= 10 {
            base - 10
        } else {
            0
        }
    } else {
        base
    }
}

/// A flow window's quality lowered when market context was expected and
/// open interest (three points) or funding (two) is missing.
pub fn market_context_quality_score(
    base: u8,
    context_expected: bool,
    oi_available: bool,
    funding_available: bool,
) -> (r: u8)
    ensures
        r == if !context_expected {
            base as int
        } else {
            minus_floor(
                minus_floor(
                    base as int,
                    if oi_available {
                        0
                    } else {
                        3
                    },
                ),
                if funding_available {
                    0
                } else {
                    2
                },
            )
        },
{
    if !context_expected {
        return base;
    }
    let mut score = base;
    if !oi_available {
        score = if score >= 3 {
            score - 3
        } else {
            0
        };
    }
    if !funding_available {
        score = if score >= 2 {
            score - 2
        } else {
            0
        };
    }
    score
}

/// The overall data quality: six tenths of the contract score and four
/// tenths of the spot score, rounded, at most 100.
pub open spec fn overall_quality_of(contract: int, spot: int) -> int {
    let q = (6 * contract + 4 * spot + 5) / 10;
    if q > 100 {
        100
    } else {
        q
    }
}

/// The contract, spot and overall data-quality scores at `now`.
pub fn summary_data_quality_scores(
    active_contract_exchanges: &Vec<String>,
    primary_exchanges: &Vec<String>,
    spot_sources: &Vec<String>,
    statuses: &Vec<ExchangeLastTrade>,
    now: i64,
    warmup_active: bool,
) -> (r: (u8, u8, u8))
    ensures
        r.0 == contract_quality_of(
            active_contract_exchanges@,
            primary_exchanges@,
            statuses@,
            now,
            warmup_active,
        ),
        r.1 == spot_quality_of(spot_sources@, statuses@, now, warmup_active),
        r.2 == overall_quality_of(r.0 as int, r.1 as int),
{
    let c = contract_data_quality_score(
        active_contract_exchanges,
        primary_exchanges,
        statuses,
        now,
        warmup_active,
    );
    let sp = spot_data_quality_score(spot_sources, statuses, now, warmup_active);
    let q: u32 = (6 * (c as u32) + 4 * (sp as u32) + 5) / 10;
    let overall: u8 = if q > 100 {
        100
    } else {
        q as u8
    };
    (c, sp, overall)
}

/// What the summary reads of a signal.
pub struct SummarySignalFacts {
    pub ts: i64,
    pub severity: ContractWhaleSeverity,
    pub direction: ContractWhaleDirection,
    pub discord_sent: bool,
    pub discord_sent_at: Option<i64>,
}

/// The summary of the latest signals (newest first): how many, the
/// newest one's time, severity, status and direction, and the last push.
pub struct LatestSignalSummary {
    pub signal_count: usize,
    pub latest_signal_at: Option<i64>,
    pub latest_severity: ContractWhaleSeverity,
    pub latest_status: String,
    pub latest_direction: String,
    pub last_discord_sent_at: Option<i64>,
}

/// When a pushed signal was sent: its send time, else its own.
pub open spec fn sent_at(f: SummarySignalFacts) -> Option<i64> {
    if f.discord_sent {
        match f.discord_sent_at {
            Some(t) => Some(t),
            None => Some(f.ts),
        }
    } else {
        None
    }
}

/// The latest time a signal was pushed.
pub open spec fn last_sent_of(items: Seq<SummarySignalFacts>) -> Option<i64>
    decreases items.len(),
{
    if items.len() == 0 {
        None
    } else {
        max_opt(last_sent_of(items.drop_last()), sent_at(items.last()))
    }
}

/// The summary of `items`, newest first: a count, the first item's time,
/// severity (calm when none), status word (calm when none) and direction
/// (neutral when none), and the latest push.
pub fn latest_signal_summary(items: &Vec<SummarySignalFacts>) -> (r: LatestSignalSummary)
    ensures
        r.signal_count == items@.len(),
        r.latest_signal_at == if items@.len() > 0 {
            Some(items@[0].ts)
        } else {
            None::<i64>
        },
        r.latest_severity == if items@.len() > 0 {
            items@[0].severity
        } else {
            ContractWhaleSeverity::Calm
        },
        r.latest_status@ == if items@.len() > 0 {
            status_word(items@[0].severity)
        } else {
            "calm"@
        },
        r.latest_direction@ == if items@.len() > 0 {
            direction_word(items@[0].direction)
        } else {
            "neutral"@
        },
        r.last_discord_sent_at == last_sent_of(items@),
{
    let ghost all = items@;
    let mut last: Option<i64> = None;
    let mut i: usize = 0;
    while i < items.len()
        invariant
            all == items@,
            i <= all.len(),
            last == last_sent_of(all.take(i as int)),
        decreases items.len() - i,
    {
        proof {
            assert(all.take(i + 1).drop_last() =~= all.take(i as int));
            assert(all.take(i + 1).last() == all[i as int]);
        }
        let f = &items[i];
        let at: Option<i64> = if f.discord_sent {
            match f.discord_sent_at {
                Some(t) => Some(t),
                None => Some(f.ts),
            }
        } else {
            None
        };
        last = max_option(last, at);
        i = i + 1;
    }
    proof {
        assert(all.take(i as int) =~= all);
    }
    if items.len() > 0 {
        let first = &items[0];
        LatestSignalSummary {
            signal_count: items.len(),
            latest_signal_at: Some(first.ts),
            latest_severity: first.severity,
            latest_status: String::from_str(status_code(first.severity)),
            latest_direction: String::from_str(direction_key(first.direction)),
            last_discord_sent_at: last,
        }
    } else {
        LatestSignalSummary {
            signal_count: 0,
            latest_signal_at: None,
            latest_severity: ContractWhaleSeverity::Calm,
            latest_status: String::from_str("calm"),
            latest_direction: String::from_str("neutral"),
            last_discord_sent_at: last,
        }
    }
}

/// The symbol and units of a signal.
pub struct SignalUnits {
    pub symbol: String,
    pub base_asset: String,
    pub quantity_unit: String,
}

/// The units a signal gets: the base asset of its symbol, or of the
/// fallback symbol when its own is blank, which then also becomes its
/// symbol.
pub open spec fn units_ok(after: SignalUnits, before: SignalUnits, fallback: Seq<char>) -> bool {
    let blank = trim(before.symbol@).len() == 0;
    let base = base_asset_of(if blank { fallback } else { before.symbol@ });
    &&& after.base_asset@ == base
    &&& after.quantity_unit@ == base
    &&& after.symbol@ == if blank {
        base
    } else {
        before.symbol@
    }
}

/// Gives every signal its base asset and quantity unit; see `units_ok`.
pub fn decorate_signal_units(items: &mut Vec<SignalUnits>, fallback_symbol: &str)
    ensures
        final(items)@.len() == old(items)@.len(),
        forall|i: int|
            0 <= i < old(items)@.len() ==> units_ok(
                #[trigger] final(items)@[i],
                old(items)@[i],
                fallback_symbol@,
            ),
{
    let ghost start = items@;
    let mut i: usize = 0;
    while i < items.len()
        invariant
            items@.len() == start.len(),
            i <= start.len(),
            forall|k: int| 0 <= k < i ==> units_ok(#[trigger] items@[k], start[k], fallback_symbol@),
            forall|k: int| i <= k < start.len() ==> #[trigger] items@[k] == start[k],
        decreases start.len() - i,
    {
        let blank = trim_chars(&chars_of(items[i].symbol.as_str())).len() == 0;
        let base = if blank {
            contract_base_asset(fallback_symbol)
        } else {
            contract_base_asset(items[i].symbol.as_str())
        };
        let symbol = if blank {
            base.clone()
        } else {
            items[i].symbol.clone()
        };
        let unit = base.clone();
        items.set(i, SignalUnits { symbol, base_asset: base, quantity_unit: unit });
        i = i + 1;
    }
}

/// A latest signal with the exchanges it was seen on.
pub struct ExchangeTagged<T> {
    pub exchanges: Vec<String>,
    pub signal: T,
}

/// The signal was seen on `exchange`, ignoring case.
pub open spec fn seen_on<T>(item: ExchangeTagged<T>, exchange: Seq<char>) -> bool {
    exists|j: int| 0 <= j < item.exchanges@.len() && lower(item.exchanges@[j]@) == lower(exchange)
}

/// The signals seen on `exchange`, in order.
pub open spec fn seen_on_all<T>(items: Seq<ExchangeTagged<T>>, exchange: Seq<char>) -> Seq<ExchangeTagged<T>>
    decreases items.len(),
{
    if items.len() == 0 {
        Seq::empty()
    } else {
        let rest = seen_on_all(items.drop_last(), exchange);
        if seen_on(items.last(), exchange) {
            rest.push(items.last())
        } else {
            rest
        }
    }
}

fn seen_on_exec<T>(item: &ExchangeTagged<T>, exchange: &Vec<char>) -> (r: bool)
    ensures
        r == seen_on(*item, exchange@),
{
    let target = lower_chars(exchange);
    let mut i: usize = 0;
    while i < item.exchanges.len()
        invariant
            i <= item.exchanges@.len(),
            target@ == lower(exchange@),
            forall|j: int| 0 <= j < i ==> lower(item.exchanges@[j]@) != lower(exchange@),
        decreases item.exchanges.len() - i,
    {
        if crate::text::eq_chars(&lower_chars(&chars_of(item.exchanges[i].as_str())), &target) {
            return true;
        }
        i = i + 1;
    }
    false
}

/// The latest signals narrowed to an exchange: with none named, all of
/// them and no filter; else those seen on it (ignoring case) and the
/// exchange, lower-cased, as the filter to report.
pub fn filter_latest_by_exchange<T>(items: Vec<ExchangeTagged<T>>, exchange: Option<&str>) -> (r: (
    Vec<ExchangeTagged<T>>,
    Option<String>,
))
    ensures
        match exchange {
            None => r.0@ == items@ && r.1 is None,
            Some(x) => r.0@ == seen_on_all(items@, x@) && (r.1 matches Some(f) && f@ == lower(x@)),
        },
{
    let x = match exchange {
        None => return (items, None),
        Some(x) => x,
    };
    let xc = chars_of(x);
    let ghost all = items@;
    let mut rest = items;
    let mut kept: Vec<ExchangeTagged<T>> = Vec::new();
    let mut k: usize = 0;
    let n: usize = rest.len();
    proof {
        assert(all.take(0) =~= Seq::<ExchangeTagged<T>>::empty());
        assert(all.skip(0) =~= all);
    }
    while rest.len() > 0
        invariant
            all.len() == n,
            k <= n,
            xc@ == x@,
            rest@ == all.skip(k as int),
            kept@ == seen_on_all(all.take(k as int), x@),
        decreases rest.len(),
    {
        let item = rest.remove(0);
        proof {
            assert(item == all[k as int]);
            assert(rest@ =~= all.skip(k + 1));
            assert(all.take(k + 1).drop_last() =~= all.take(k as int));
            assert(all.take(k + 1).last() == item);
        }
        if seen_on_exec(&item, &xc) {
            kept.push(item);
        }
        k = k + 1;
    }
    proof {
        assert(all.take(k as int) =~= all);
    }
    (kept, Some(string_of(&lower_chars(&xc))))
}

/// One exchange feed as the statuses read it: its name, switches, the last
/// trade the flow windows saw on it, and its health report.
pub struct ExchangeFeedInput {
    pub exchange: String,
    pub switches: ExchangeSwitches,
    pub flow_last_trade: Option<i64>,
    pub health: Option<VenueHealthFacts>,
}

/// The status of every exchange feed at `now`, by name, in order.
pub fn contract_exchange_statuses(feeds: &Vec<ExchangeFeedInput>, now: i64) -> (r: Vec<
    (String, ExchangeFeedStatus),
>)
    ensures
        r@.len() == feeds@.len(),
        forall|i: int|
            0 <= i < feeds@.len() ==> (#[trigger] r@[i]).0@ == feeds@[i].exchange@
                && feed_status_ok(
                r@[i].1,
                feeds@[i].switches,
                feeds@[i].flow_last_trade,
                feeds@[i].health,
                now,
            ),
{
    let mut out: Vec<(String, ExchangeFeedStatus)> = Vec::new();
    let mut i: usize = 0;
    while i < feeds.len()
        invariant
            i <= feeds@.len(),
            out@.len() == i,
            forall|k: int|
                0 <= k < i ==> (#[trigger] out@[k]).0@ == feeds@[k].exchange@ && feed_status_ok(
                    out@[k].1,
                    feeds@[k].switches,
                    feeds@[k].flow_last_trade,
                    feeds@[k].health,
                    now,
                ),
        decreases feeds.len() - i,
    {
        let f = &feeds[i];
        let status = exchange_feed_status(f.switches, f.flow_last_trade, f.health, now);
        out.push((f.exchange.clone(), status));
        i = i + 1;
    }
    out
}

/// How many signals of `items` at or after `from` satisfy `pred`.
pub open spec fn hour_count(
    items: Seq<DryRunSignalFacts>,
    from: i64,
    pred: spec_fn(DryRunSignalFacts) -> bool,
) -> nat
    decreases items.len(),
{
    if items.len() == 0 {
        0
    } else {
        hour_count(items.drop_last(), from, pred) + if items.last().ts >= from && pred(
            items.last(),
        ) {
            1nat
        } else {
            0nat
        }
    }
}

/// A signal the dry run would have sent, or that was eligible to be sent.
pub open spec fn counts_as_sent(f: DryRunSignalFacts) -> bool {
    f.discord_would_send || f.discord_eligible
}

/// What the dry-run summary counts: every signal of the hour once; by
/// severity those that are high, critical or S; as "would send" exactly
/// those that would have been sent or were eligible; and every other
/// signal of the hour in exactly one skip bucket, so that no sent or
/// eligible signal is ever counted as skipped.
pub proof fn law_dry_run_counts(items: Seq<DryRunSignalFacts>, from: i64)
    requires
        items.len() < u64::MAX,
    ensures
        stats_of(items, from).signals_1h == hour_count(items, from, |f: DryRunSignalFacts| true),
        stats_of(items, from).high_1h == hour_count(
            items,
            from,
            |f: DryRunSignalFacts| f.severity == ContractWhaleSeverity::High,
        ),
        stats_of(items, from).critical_1h == hour_count(
            items,
            from,
            |f: DryRunSignalFacts| f.severity == ContractWhaleSeverity::Critical,
        ),
        stats_of(items, from).s_1h == hour_count(
            items,
            from,
            |f: DryRunSignalFacts| f.severity == ContractWhaleSeverity::S,
        ),
        stats_of(items, from).would_send_1h == hour_count(
            items,
            from,
            |f: DryRunSignalFacts| counts_as_sent(f),
        ),
        stats_of(items, from).skipped_cooldown_1h + stats_of(items, from).skipped_data_quality_1h
            + stats_of(items, from).skipped_warmup_1h + stats_of(items, from).skipped_display_only_1h
            + stats_of(items, from).skipped_low_score_1h == hour_count(
            items,
            from,
            |f: DryRunSignalFacts| !counts_as_sent(f),
        ),
    decreases items.len(),
{
    lemma_stats_bounded(items, from);
    if items.len() > 0 {
        law_dry_run_counts(items.drop_last(), from);
        lemma_stats_bounded(items.drop_last(), from);
    }
}

} // verus!
