//! Duplicate, cooldown and burst limits on Discord pushes.
use vstd::prelude::*;

use std::collections::VecDeque;

use crate::keyed::Keyed;

verus! {

/// A reservation key is remembered for 60 s.
pub const KEY_TTL_NANOS: u64 = 60_000_000_000;

/// The burst window is 10 s.
pub const BURST_WINDOW_NANOS: u64 = 10_000_000_000;

/// At most 5 pushes may be reserved inside one burst window.
pub const BURST_MAX: usize = 5;

/// Cooldown used when a reservation names a cooldown key but no duration.
pub const DEFAULT_COOLDOWN_SECS: u64 = 60;

pub const NANOS_PER_SEC: u128 = 1_000_000_000;

/// When a cooldown started and how long it lasts.
#[derive(Clone, Copy)]
pub struct CooldownEntry {
    pub at: u64,
    pub duration_nanos: u128,
}

/// `now.duration_since(at)`, which saturates at zero.
pub open spec fn elapsed(now: u64, at: u64) -> int {
    if now >= at {
        now - at
    } else {
        0
    }
}

/// The abstract state of a limiter.
pub struct LimiterState {
    pub by_key: Map<Seq<char>, u64>,
    pub cooldowns: Map<Seq<char>, CooldownEntry>,
    pub burst: Seq<u64>,
}

/// Burst timestamps that are still inside the burst window at `now`: old
/// timestamps are dropped from the front.
pub open spec fn burst_pruned(q: Seq<u64>, now: u64) -> Seq<u64>
    decreases q.len(),
{
    if q.len() > 0 && elapsed(now, q[0]) >= BURST_WINDOW_NANOS {
        burst_pruned(q.drop_first(), now)
    } else {
        q
    }
}

/// The limiter state once expired keys, cooldowns and burst entries are
/// dropped at `now`.
pub open spec fn pruned(s: LimiterState, now: u64) -> LimiterState {
    LimiterState {
        by_key: Map::new(
            |k: Seq<char>| s.by_key.contains_key(k) && elapsed(now, s.by_key[k]) < KEY_TTL_NANOS,
            |k: Seq<char>| s.by_key[k],
        ),
        cooldowns: Map::new(
            |k: Seq<char>|
                s.cooldowns.contains_key(k) && elapsed(now, s.cooldowns[k].at)
                    < s.cooldowns[k].duration_nanos,
            |k: Seq<char>| s.cooldowns[k],
        ),
        burst: burst_pruned(s.burst, now),
    }
}

/// A limiter state with no key, cooldown or burst entry.
pub open spec fn empty_limiter_state() -> LimiterState {
    LimiterState {
        by_key: Map::<Seq<char>, u64>::empty(),
        cooldowns: Map::<Seq<char>, CooldownEntry>::empty(),
        burst: Seq::<u64>::empty(),
    }
}

/// Why a reservation at `now` is refused, if it is.
pub open spec fn refusal(s: LimiterState, now: u64, key: Seq<char>, cooldown_key: Option<Seq<char>>) -> Option<
    Seq<char>,
> {
    let p = pruned(s, now);
    if p.by_key.contains_key(key) {
        Some("DUPLICATE_PUSH_SUPPRESSED"@)
    } else if cooldown_key matches Some(ck) && p.cooldowns.contains_key(ck) {
        Some("COOLDOWN_SUPPRESSED"@)
    } else if p.burst.len() >= BURST_MAX {
        Some("RATE_LIMITED"@)
    } else {
        None
    }
}

pub open spec fn cooldown_nanos(cooldown_secs: Option<u64>) -> u128 {
    match cooldown_secs {
        Some(secs) => (secs * NANOS_PER_SEC) as u128,
        None => (DEFAULT_COOLDOWN_SECS * NANOS_PER_SEC) as u128,
    }
}

/// The state after a reservation at `now`.
pub open spec fn after_reserve(
    s: LimiterState,
    now: u64,
    key: Seq<char>,
    cooldown_key: Option<Seq<char>>,
    cooldown_secs: Option<u64>,
) -> LimiterState {
    let p = pruned(s, now);
    if refusal(s, now, key, cooldown_key) is Some {
        p
    } else {
        LimiterState {
            by_key: p.by_key.insert(key, now),
            cooldowns: match cooldown_key {
                Some(ck) => p.cooldowns.insert(
                    ck,
                    CooldownEntry { at: now, duration_nanos: cooldown_nanos(cooldown_secs) },
                ),
                None => p.cooldowns,
            },
            burst: p.burst.push(now),
        }
    }
}

/// Limits pushes: a key is accepted once per 60 s, a cooldown key blocks
/// other pushes while its cooldown runs, and at most five pushes are
/// accepted per 10 s.
pub struct DiscordPushLimiter {
    origin: std::time::Instant,
    latest: u64,
    by_key: Keyed<u64>,
    cooldown_by_key: Keyed<CooldownEntry>,
    burst: VecDeque<u64>,
}

impl DiscordPushLimiter {
    pub closed spec fn wf(&self) -> bool {
        &&& self.by_key.wf()
        &&& self.cooldown_by_key.wf()
        &&& self.burst@.len() <= BURST_MAX
    }

    /// The latest clock reading a reservation was made at; readings never
    /// go back below it.
    pub closed spec fn latest_reading(&self) -> u64 {
        self.latest
    }

    pub closed spec fn state(&self) -> LimiterState {
        LimiterState {
            by_key: self.by_key.view(),
            cooldowns: self.cooldown_by_key.view(),
            burst: self.burst@,
        }
    }

    /// A limiter with nothing reserved.
    pub fn new() -> (r: Self)
        ensures
            r.wf(),
            r.state() == empty_limiter_state(),
            r.latest_reading() == 0,
    {
        DiscordPushLimiter {
            origin: crate::clock::instant_now(),
            latest: 0,
            by_key: Keyed::new(),
            cooldown_by_key: Keyed::new(),
            burst: VecDeque::new(),
        }
    }

    /// Reserves a push of `key` now. Returns the reason when the push is
    /// refused, and `None` when it is accepted and recorded. The reading of
    /// the limiter's monotonic clock is taken no earlier than the latest
    /// one (which a monotonic clock never goes below anyway), so successive
    /// reservations are made at non-decreasing times.
    pub fn reserve(&mut self, key: &str, cooldown_key: Option<&str>, cooldown_secs: Option<u64>) -> (r:
        Option<&'static str>)
        requires
            old(self).wf(),
        ensures
            final(self).wf(),
            exists|now: u64|
                {
                    &&& old(self).latest_reading() <= now
                    &&& final(self).latest_reading() == now
                    &&& final(self).state() == after_reserve(
                        old(self).state(),
                        now,
                        key@,
                        opt_view(cooldown_key),
                        cooldown_secs,
                    )
                    &&& reason_matches(r, refusal(old(self).state(), now, key@, opt_view(cooldown_key)))
                },
    {
        let reading = crate::clock::nanos_since(&self.origin);
        let now = if reading >= self.latest {
            reading
        } else {
            self.latest
        };
        let ghost before = self.state();
        self.latest = now;
        assert(self.state() == before);
        let r = self.reserve_at(now, key, cooldown_key, cooldown_secs);
        assert(old(self).latest_reading() <= now && self.latest_reading() == now);
        assert(self.state() == after_reserve(before, now, key@, opt_view(cooldown_key), cooldown_secs));
        assert(reason_matches(r, refusal(before, now, key@, opt_view(cooldown_key))));
        r
    }

    /// Reserves a push of `key` at the clock reading `now` (nanoseconds on
    /// the limiter's monotonic clock).
    pub fn reserve_at(
        &mut self,
        now: u64,
        key: &str,
        cooldown_key: Option<&str>,
        cooldown_secs: Option<u64>,
    ) -> (r: Option<&'static str>)
        requires
            old(self).wf(),
        ensures
            final(self).wf(),
            final(self).latest_reading() == old(self).latest_reading(),
            final(self).state() == after_reserve(
                old(self).state(),
                now,
                key@,
                opt_view(cooldown_key),
                cooldown_secs,
            ),
            reason_matches(r, refusal(old(self).state(), now, key@, opt_view(cooldown_key))),
    {
        self.prune(now);
        if self.by_key.find(key).is_some() {
            return Some("DUPLICATE_PUSH_SUPPRESSED");
        }
        if let Some(ck) = cooldown_key {
            if self.cooldown_by_key.find(ck).is_some() {
                return Some("COOLDOWN_SUPPRESSED");
            }
        }
        if self.burst.len() >= BURST_MAX {
            return Some("RATE_LIMITED");
        }
        self.by_key.insert(String::from_str(key), now);
        if let Some(ck) = cooldown_key {
            let duration_nanos: u128 = match cooldown_secs {
                Some(secs) => (secs as u128) * NANOS_PER_SEC,
                None => (DEFAULT_COOLDOWN_SECS as u128) * NANOS_PER_SEC,
            };
            self.cooldown_by_key.insert(
                String::from_str(ck),
                CooldownEntry { at: now, duration_nanos },
            );
        }
        self.burst.push_back(now);
        proof {
            assert(self.state().burst =~= pruned(old(self).state(), now).burst.push(now));
        }
        None
    }

    /// Drops the reservation of `key` and, if given, the cooldown under
    /// `cooldown_key`.
    pub fn release(&mut self, key: &str, cooldown_key: Option<&str>)
        requires
            old(self).wf(),
        ensures
            final(self).wf(),
            final(self).latest_reading() == old(self).latest_reading(),
            final(self).state().by_key == old(self).state().by_key.remove(key@),
            final(self).state().cooldowns == match cooldown_key {
                Some(ck) => old(self).state().cooldowns.remove(ck@),
                None => old(self).state().cooldowns,
            },
            final(self).state().burst == old(self).state().burst,
    {
        self.by_key.remove(key);
        if let Some(ck) = cooldown_key {
            self.cooldown_by_key.remove(ck);
        }
    }

    /// Whether the oldest burst entry has left the burst window at `now`.
    fn front_expired(&self, now: u64) -> (r: bool)
        ensures
            r == (self.burst@.len() > 0 && elapsed(now, self.burst@[0]) >= BURST_WINDOW_NANOS),
    {
        if self.burst.len() == 0 {
            return false;
        }
        let front = self.burst[0];
        let age: u64 = if now >= front {
            now - front
        } else {
            0
        };
        age >= BURST_WINDOW_NANOS
    }

    /// Drops the keys, cooldowns and burst entries that have expired at
    /// `now`.
    pub fn prune(&mut self, now: u64)
        requires
            old(self).wf(),
        ensures
            final(self).wf(),
            final(self).latest_reading() == old(self).latest_reading(),
            final(self).state() == pruned(old(self).state(), now),
    {
        // Reservation keys.
        let mut flags: Vec<bool> = Vec::new();
        let n = self.by_key.entries.len();
        let ghost keep_key = |at: u64| elapsed(now, at) < KEY_TTL_NANOS;
        let mut i: usize = 0;
        while i < n
            invariant
                i <= n,
                n == self.by_key.entries@.len(),
                self.latest == old(self).latest,
                self.by_key.wf(),
                keep_key == (|at: u64| elapsed(now, at) < KEY_TTL_NANOS),
                flags@.len() == i,
                forall|j: int| 0 <= j < i ==> #[trigger] flags@[j] == keep_key(
                    self.by_key.entries@[j].1,
                ),
            decreases n - i,
        {
            let at = self.by_key.entries[i].1;
            let age: u64 = if now >= at {
                now - at
            } else {
                0
            };
            flags.push(age < KEY_TTL_NANOS);
            i = i + 1;
        }
        self.by_key.retain_flags(&flags, Ghost(keep_key));
        let ghost kept_keys = self.by_key.view();
        // Cooldowns.
        let mut cflags: Vec<bool> = Vec::new();
        let m = self.cooldown_by_key.entries.len();
        let ghost keep_cd = |e: CooldownEntry| elapsed(now, e.at) < e.duration_nanos;
        let mut j: usize = 0;
        while j < m
            invariant
                j <= m,
                m == self.cooldown_by_key.entries@.len(),
                self.latest == old(self).latest,
                self.cooldown_by_key.wf(),
                self.by_key.wf(),
                self.by_key.view() == kept_keys,
                keep_cd == (|e: CooldownEntry| elapsed(now, e.at) < e.duration_nanos),
                cflags@.len() == j,
                forall|q: int| 0 <= q < j ==> #[trigger] cflags@[q] == keep_cd(
                    self.cooldown_by_key.entries@[q].1,
                ),
            decreases m - j,
        {
            let e = self.cooldown_by_key.entries[j].1;
            let age: u64 = if now >= e.at {
                now - e.at
            } else {
                0
            };
            cflags.push((age as u128) < e.duration_nanos);
            j = j + 1;
        }
        self.cooldown_by_key.retain_flags(&cflags, Ghost(keep_cd));
        let ghost kept_cd = self.cooldown_by_key.view();
        // Burst window.
        let ghost q0 = self.burst@;
        let mut more = self.front_expired(now);
        while more
            invariant
                more == (self.burst@.len() > 0 && elapsed(now, self.burst@[0]) >= BURST_WINDOW_NANOS),
                burst_pruned(self.burst@, now) == burst_pruned(q0, now),
                self.burst@.len() <= q0.len(),
                self.latest == old(self).latest,
                self.by_key.wf(),
                self.cooldown_by_key.wf(),
                self.by_key.view() == kept_keys,
                self.cooldown_by_key.view() == kept_cd,
            decreases self.burst@.len(),
        {
            let _ = self.burst.pop_front();
            more = self.front_expired(now);
        }
        proof {
            assert(self.by_key.view() =~= pruned(old(self).state(), now).by_key);
            assert(self.cooldown_by_key.view() =~= pruned(old(self).state(), now).cooldowns);
        }
    }
}

/// The characters of an optional string slice.
pub open spec fn opt_view(o: Option<&str>) -> Option<Seq<char>> {
    match o {
        Some(s) => Some(s@),
        None => None,
    }
}

/// A returned refusal reason agrees with the specified one.
pub open spec fn reason_matches(r: Option<&'static str>, spec_reason: Option<Seq<char>>) -> bool {
    match r {
        Some(x) => spec_reason == Some(x@),
        None => spec_reason is None,
    }
}

/// The two limiters of the Discord proxy: real deliveries and test
/// previews are counted separately.
pub struct DiscordPushLimits {
    pub delivery: DiscordPushLimiter,
    pub preview: DiscordPushLimiter,
}

impl DiscordPushLimits {
    pub open spec fn wf(&self) -> bool {
        self.delivery.wf() && self.preview.wf()
    }

    pub fn new() -> (r: Self)
        ensures
            r.wf(),
            r.delivery.state() == empty_limiter_state(),
            r.delivery.latest_reading() == 0,
            r.preview.state() == empty_limiter_state(),
            r.preview.latest_reading() == 0,
    {
        DiscordPushLimits { delivery: DiscordPushLimiter::new(), preview: DiscordPushLimiter::new() }
    }
}

/// Clears both limiters.
pub fn reset_discord_push_limits_for_tests(limits: &mut DiscordPushLimits)
    ensures
        final(limits).wf(),
        final(limits).delivery.state() == empty_limiter_state(),
        final(limits).delivery.latest_reading() == 0,
        final(limits).preview.state() == empty_limiter_state(),
        final(limits).preview.latest_reading() == 0,
{
    limits.delivery = DiscordPushLimiter::new();
    limits.preview = DiscordPushLimiter::new();
}

/// Reserves `key` on the delivery limiter, with no cooldown key.
pub fn reserve_discord_push_for_tests(limits: &mut DiscordPushLimits, key: &str) -> (r: Option<
    &'static str,
>)
    requires
        old(limits).wf(),
    ensures
        final(limits).wf(),
        final(limits).preview.state() == old(limits).preview.state(),
        exists|now: u64|
            {
                &&& old(limits).delivery.latest_reading() <= now
                &&& final(limits).delivery.latest_reading() == now
                &&& final(limits).delivery.state() == after_reserve(
                    old(limits).delivery.state(),
                    now,
                    key@,
                    None,
                    None,
                )
                &&& reason_matches(r, refusal(old(limits).delivery.state(), now, key@, None))
            },
{
    limits.delivery.reserve(key, None, None)
}

/// Reserves `key` on the delivery limiter with a cooldown key and duration.
pub fn reserve_discord_push_for_tests_with_cooldown(
    limits: &mut DiscordPushLimits,
    key: &str,
    cooldown_key: &str,
    cooldown_secs: u64,
) -> (r: Option<&'static str>)
    requires
        old(limits).wf(),
    ensures
        final(limits).wf(),
        final(limits).preview.state() == old(limits).preview.state(),
        exists|now: u64|
            {
                &&& old(limits).delivery.latest_reading() <= now
                &&& final(limits).delivery.latest_reading() == now
                &&& final(limits).delivery.state() == after_reserve(
                    old(limits).delivery.state(),
                    now,
                    key@,
                    Some(cooldown_key@),
                    Some(cooldown_secs),
                )
                &&& reason_matches(
                    r,
                    refusal(old(limits).delivery.state(), now, key@, Some(cooldown_key@)),
                )
            },
{
    limits.delivery.reserve(key, Some(cooldown_key), Some(cooldown_secs))
}

// ---------------------------------------------------------------------------
// Laws
// ---------------------------------------------------------------------------

/// A key accepted at `t` is refused as a duplicate at any `later` less than
/// 60 s after `t`, whatever else was reserved in between (unless it was
/// released).
pub proof fn law_duplicate_within_ttl(
    s: LimiterState,
    t: u64,
    later: u64,
    key: Seq<char>,
    cooldown_key: Option<Seq<char>>,
    cooldown_secs: Option<u64>,
    other_cooldown_key: Option<Seq<char>>,
)
    requires
        refusal(s, t, key, cooldown_key) is None,
        t <= later,
        later - t < KEY_TTL_NANOS,
    ensures
        refusal(after_reserve(s, t, key, cooldown_key, cooldown_secs), later, key, other_cooldown_key)
            == Some("DUPLICATE_PUSH_SUPPRESSED"@),
{
}

/// While a cooldown started at `t` runs, any other key under the same
/// cooldown key is refused.
pub proof fn law_cooldown_blocks_same_cooldown_key(
    s: LimiterState,
    t: u64,
    later: u64,
    key: Seq<char>,
    other_key: Seq<char>,
    cooldown_key: Seq<char>,
    cooldown_secs: Option<u64>,
)
    requires
        refusal(s, t, key, Some(cooldown_key)) is None,
        t <= later,
        later - t < cooldown_nanos(cooldown_secs),
        later - t >= KEY_TTL_NANOS || other_key != key,
    ensures
        refusal(
            after_reserve(s, t, key, Some(cooldown_key), cooldown_secs),
            later,
            other_key,
            Some(cooldown_key),
        ) is Some,
{
}

/// The burst queue never holds more than five reservations.
pub proof fn law_burst_bounded(
    s: LimiterState,
    now: u64,
    key: Seq<char>,
    cooldown_key: Option<Seq<char>>,
    cooldown_secs: Option<u64>,
)
    requires
        s.burst.len() <= BURST_MAX,
    ensures
        after_reserve(s, now, key, cooldown_key, cooldown_secs).burst.len() <= BURST_MAX,
{
    lemma_burst_pruned_len(s.burst, now);
}

/// Once five reservations were accepted inside the last 10 s, a further one
/// is refused (as a duplicate, for its cooldown, or as rate-limited), and a
/// refused reservation records nothing new.
pub proof fn law_full_burst_window_refuses(
    s: LimiterState,
    now: u64,
    key: Seq<char>,
    cooldown_key: Option<Seq<char>>,
    cooldown_secs: Option<u64>,
)
    requires
        s.burst.len() >= BURST_MAX,
        forall|i: int| 0 <= i < s.burst.len() ==> #[trigger] s.burst[i] <= now && now - s.burst[i]
            < BURST_WINDOW_NANOS,
    ensures
        refusal(s, now, key, cooldown_key) is Some,
        after_reserve(s, now, key, cooldown_key, cooldown_secs).burst == s.burst,
        refusal(s, now, key, cooldown_key) != Some("DUPLICATE_PUSH_SUPPRESSED"@)
            && refusal(s, now, key, cooldown_key) != Some("COOLDOWN_SUPPRESSED"@) ==> refusal(
            s,
            now,
            key,
            cooldown_key,
        ) == Some("RATE_LIMITED"@),
{
    assert(s.burst[0] <= now);
    assert(burst_pruned(s.burst, now) == s.burst);
}

/// After a reset nothing earlier counts: a key reserved before is accepted
/// again, and a fresh key under a cooldown key used before is accepted after
/// it, whenever the two reservations are made.
pub proof fn law_reset_forgets_reservations(
    now: u64,
    later: u64,
    key: Seq<char>,
    fresh_key: Seq<char>,
    cooldown_key: Seq<char>,
    cooldown_secs: Option<u64>,
)
    requires
        fresh_key != key,
    ensures
        refusal(empty_limiter_state(), now, key, None) is None,
        refusal(
            after_reserve(empty_limiter_state(), now, key, None, None),
            later,
            fresh_key,
            Some(cooldown_key),
        ) is None,
        refusal(empty_limiter_state(), now, key, Some(cooldown_key)) is None,
{
    let e = empty_limiter_state();
    assert(pruned(e, now).by_key =~= Map::<Seq<char>, u64>::empty());
    assert(pruned(e, now).cooldowns =~= Map::<Seq<char>, CooldownEntry>::empty());
    assert(burst_pruned(e.burst, now) == e.burst);
    let s1 = after_reserve(e, now, key, None, None);
    assert(s1.by_key =~= Map::<Seq<char>, u64>::empty().insert(key, now));
    assert(s1.cooldowns =~= Map::<Seq<char>, CooldownEntry>::empty());
    assert(s1.burst =~= seq![now]);
    assert(!pruned(s1, later).by_key.contains_key(fresh_key));
    assert(!pruned(s1, later).cooldowns.contains_key(cooldown_key));
    lemma_burst_pruned_len(s1.burst, later);
}

pub proof fn lemma_burst_pruned_len(q: Seq<u64>, now: u64)
    ensures
        burst_pruned(q, now).len() <= q.len(),
    decreases q.len(),
{
    if q.len() > 0 && elapsed(now, q[0]) >= BURST_WINDOW_NANOS {
        lemma_burst_pruned_len(q.drop_first(), now);
    }
}

/// A released key is never refused as a duplicate.
pub proof fn law_release_clears_duplicate(
    s: LimiterState,
    key: Seq<char>,
    now: u64,
    cooldown_key: Option<Seq<char>>,
)
    ensures
        refusal(
            LimiterState { by_key: s.by_key.remove(key), cooldowns: s.cooldowns, burst: s.burst },
            now,
            key,
            cooldown_key,
        ) != Some("DUPLICATE_PUSH_SUPPRESSED"@),
{
    reveal_strlit("DUPLICATE_PUSH_SUPPRESSED");
    reveal_strlit("COOLDOWN_SUPPRESSED");
    reveal_strlit("RATE_LIMITED");
    assert("COOLDOWN_SUPPRESSED"@.len() != "DUPLICATE_PUSH_SUPPRESSED"@.len());
    assert("RATE_LIMITED"@.len() != "DUPLICATE_PUSH_SUPPRESSED"@.len());
}

} // verus!
