//! Bounded memory of Discord auto-push candidates and their public status.
use vstd::prelude::*;

use crate::keyed::Keyed;

verus! {

/// Both the seen-candidate memory and the status memory keep at most this
/// many keys; the oldest key is forgotten first.
pub const DISCORD_AUTO_TRACKER_MAX_ENTRIES: usize = 4096;

/// The public alert status of one candidate.
#[derive(PartialEq, Eq, Debug)]
pub struct DiscordAlertPublicStatus {
    pub auto_eligible: bool,
    pub auto_sent: bool,
    pub last_decision: String,
    pub reason: String,
    pub sent_at: Option<String>,
    pub manual_sent_at: Option<String>,
}

pub fn clone_opt_string(o: &Option<String>) -> (r: Option<String>)
    ensures
        r == *o,
{
    match o {
        Some(s) => Some(s.clone()),
        None => None,
    }
}

impl DiscordAlertPublicStatus {
    /// A field-by-field copy.
    pub fn duplicate(&self) -> (r: Self)
        ensures
            r == *self,
    {
        DiscordAlertPublicStatus {
            auto_eligible: self.auto_eligible,
            auto_sent: self.auto_sent,
            last_decision: self.last_decision.clone(),
            reason: self.reason.clone(),
            sent_at: clone_opt_string(&self.sent_at),
            manual_sent_at: clone_opt_string(&self.manual_sent_at),
        }
    }
}

/// What a stored status becomes when `incoming` is recorded for its key:
/// a delivered auto alert is terminal and only takes a new manual send time.
pub open spec fn merged_status(
    existing: Option<DiscordAlertPublicStatus>,
    incoming: DiscordAlertPublicStatus,
) -> DiscordAlertPublicStatus {
    match existing {
        Some(e) => if e.auto_sent && !incoming.auto_sent {
            if incoming.manual_sent_at is Some {
                DiscordAlertPublicStatus { manual_sent_at: incoming.manual_sent_at, ..e }
            } else {
                e
            }
        } else {
            incoming
        },
        None => incoming,
    }
}

/// Remembers which candidates were seen and the last public status of each.
pub struct DiscordAutoPushTracker {
    seen: Keyed<()>,
    statuses: Keyed<DiscordAlertPublicStatus>,
}

impl DiscordAutoPushTracker {
    pub closed spec fn wf(&self) -> bool {
        &&& self.seen.wf()
        &&& self.statuses.wf()
        &&& self.seen.entries@.len() <= DISCORD_AUTO_TRACKER_MAX_ENTRIES
        &&& self.statuses.entries@.len() <= DISCORD_AUTO_TRACKER_MAX_ENTRIES
    }

    /// The seen candidate keys.
    pub closed spec fn seen_keys(&self) -> Set<Seq<char>> {
        self.seen.view().dom()
    }

    /// The seen candidate keys, oldest first.
    pub closed spec fn seen_order(&self) -> Seq<Seq<char>> {
        self.seen.entries@.map_values(|e: (String, ())| e.0@)
    }

    /// The stored statuses.
    pub closed spec fn statuses(&self) -> Map<Seq<char>, DiscordAlertPublicStatus> {
        self.statuses.view()
    }

    /// The keys with a stored status, oldest first.
    pub closed spec fn status_order(&self) -> Seq<Seq<char>> {
        self.statuses.entries@.map_values(|e: (String, DiscordAlertPublicStatus)| e.0@)
    }

    /// The remembered keys are exactly those of the orders: a key that
    /// leaves an order (the oldest, at capacity) is forgotten.
    pub proof fn lemma_keys_follow_order(&self)
        requires
            self.wf(),
        ensures
            self.seen_keys() == self.seen_order().to_set(),
            self.statuses().dom() == self.status_order().to_set(),
            self.seen_order().no_duplicates(),
            self.status_order().no_duplicates(),
    {
        crate::keyed::lemma_entries_map(self.seen.entries@);
        crate::keyed::lemma_entries_map(self.statuses.entries@);
        assert forall|k: Seq<char>| self.seen_keys().contains(k) <==> self.seen_order().to_set().contains(
            k,
        ) by {
            if self.seen_keys().contains(k) {
                let i = choose|i: int| 0 <= i < self.seen.entries@.len() && self.seen.entries@[i].0@ == k;
                assert(self.seen_order()[i] == k);
            }
            if self.seen_order().to_set().contains(k) {
                let i = choose|i: int| 0 <= i < self.seen_order().len() && self.seen_order()[i] == k;
                assert(self.seen.entries@[i].0@ == k);
            }
        }
        assert forall|k: Seq<char>| self.statuses().dom().contains(k) <==> self.status_order().to_set().contains(
            k,
        ) by {
            if self.statuses().dom().contains(k) {
                let i = choose|i: int|
                    0 <= i < self.statuses.entries@.len() && self.statuses.entries@[i].0@ == k;
                assert(self.status_order()[i] == k);
            }
            if self.status_order().to_set().contains(k) {
                let i = choose|i: int| 0 <= i < self.status_order().len() && self.status_order()[i] == k;
                assert(self.statuses.entries@[i].0@ == k);
            }
        }
        assert(self.seen_keys() =~= self.seen_order().to_set());
        assert(self.statuses().dom() =~= self.status_order().to_set());
        assert forall|i: int, j: int|
            0 <= i < self.seen_order().len() && 0 <= j < self.seen_order().len() && i != j implies
            self.seen_order()[i] != self.seen_order()[j] by {
            if i < j {
                assert(self.seen.entries@[i].0@ != self.seen.entries@[j].0@);
            } else {
                assert(self.seen.entries@[j].0@ != self.seen.entries@[i].0@);
            }
        }
        assert forall|i: int, j: int|
            0 <= i < self.status_order().len() && 0 <= j < self.status_order().len() && i != j implies
            self.status_order()[i] != self.status_order()[j] by {
            if i < j {
                assert(self.statuses.entries@[i].0@ != self.statuses.entries@[j].0@);
            } else {
                assert(self.statuses.entries@[j].0@ != self.statuses.entries@[i].0@);
            }
        }
    }

    pub fn new() -> (r: Self)
        ensures
            r.wf(),
            r.seen_keys() == Set::<Seq<char>>::empty(),
            r.statuses() == Map::<Seq<char>, DiscordAlertPublicStatus>::empty(),
    {
        let r = DiscordAutoPushTracker { seen: Keyed::new(), statuses: Keyed::new() };
        proof {
            assert(r.seen.view().dom() =~= Set::<Seq<char>>::empty());
        }
        r
    }

    /// Number of remembered candidate keys.
    pub fn seen_len(&self) -> (r: usize)
        requires
            self.wf(),
        ensures
            r == self.seen_keys().len(),
            r <= DISCORD_AUTO_TRACKER_MAX_ENTRIES,
    {
        self.seen.len()
    }

    /// Number of stored statuses.
    pub fn status_len(&self) -> (r: usize)
        requires
            self.wf(),
        ensures
            r == self.statuses().dom().len(),
            r <= DISCORD_AUTO_TRACKER_MAX_ENTRIES,
    {
        self.statuses.len()
    }

    /// Whether `key` is a remembered candidate.
    pub fn has_seen(&self, key: &str) -> (r: bool)
        requires
            self.wf(),
        ensures
            r == self.seen_keys().contains(key@),
    {
        self.seen.find(key).is_some()
    }

    /// Records `key` as seen. Returns `true` the first time (while it is
    /// remembered) and `false` for a repeat.
    pub fn mark_once(&mut self, key: &str) -> (r: bool)
        requires
            old(self).wf(),
        ensures
            final(self).wf(),
            final(self).seen_keys() == final(self).seen_order().to_set(),
            final(self).statuses().dom() == final(self).status_order().to_set(),
            r == !old(self).seen_keys().contains(key@),
            final(self).seen_keys().contains(key@),
            final(self).statuses() == old(self).statuses(),
            !r ==> final(self).seen_order() == old(self).seen_order(),
            r && old(self).seen_order().len() < DISCORD_AUTO_TRACKER_MAX_ENTRIES ==> final(self).seen_order() == old(self).seen_order().push(key@),
            r && old(self).seen_order().len() == DISCORD_AUTO_TRACKER_MAX_ENTRIES ==> final(self).seen_order() == old(self).seen_order().push(key@).drop_first(),
    {
        if self.seen.find(key).is_some() {
            proof {
                self.lemma_keys_follow_order();
            }
            return false;
        }
        let ghost before = self.seen.entries@;
        self.seen.insert(String::from_str(key), ());
        if self.seen.entries.len() > DISCORD_AUTO_TRACKER_MAX_ENTRIES {
            proof {
                assert(self.seen.entries@[0].0@ != key@) by {
                    assert(self.seen.entries@[0] == before[0]);
                    assert(self.seen.entries@[self.seen.entries@.len() - 1].0@ == key@);
                }
            }
            self.seen.remove_first();
        }
        proof {
            assert(self.seen_order() =~= if before.len() < DISCORD_AUTO_TRACKER_MAX_ENTRIES {
                old(self).seen_order().push(key@)
            } else {
                old(self).seen_order().push(key@).drop_first()
            });
            self.lemma_keys_follow_order();
        }
        true
    }

    /// Records the public status of `key`. A status that says the alert
    /// was auto-sent is never replaced by one that says it was not; only a
    /// new manual send time is taken over.
    pub fn set_status(&mut self, key: &str, status: DiscordAlertPublicStatus)
        requires
            old(self).wf(),
        ensures
            final(self).wf(),
            final(self).seen_keys() == final(self).seen_order().to_set(),
            final(self).statuses().dom() == final(self).status_order().to_set(),
            final(self).seen_keys() == old(self).seen_keys(),
            final(self).statuses().contains_key(key@),
            final(self).statuses()[key@] == merged_status(
                if old(self).statuses().contains_key(key@) {
                    Some(old(self).statuses()[key@])
                } else {
                    None
                },
                status,
            ),
            forall|k: Seq<char>|
                k != key@ && #[trigger] final(self).statuses().contains_key(k) ==> old(self).statuses().contains_key(k) && final(self).statuses()[k] == old(self).statuses()[k],
            old(self).statuses().contains_key(key@) ==> final(self).status_order() == old(self).status_order(),
            !old(self).statuses().contains_key(key@) && old(self).status_order().len()
                < DISCORD_AUTO_TRACKER_MAX_ENTRIES ==> final(self).status_order() == old(self).status_order().push(key@),
            !old(self).statuses().contains_key(key@) && old(self).status_order().len()
                == DISCORD_AUTO_TRACKER_MAX_ENTRIES ==> final(self).status_order() == old(self).status_order().push(key@).drop_first(),
    {
        let ghost before = self.statuses.entries@;
        proof {
            crate::keyed::lemma_entries_map(before);
        }
        if let Some(i) = self.statuses.find(key) {
            let existing = self.statuses.entries[i].1.duplicate();
            if existing.auto_sent && !status.auto_sent {
                let mut updated = existing;
                if status.manual_sent_at.is_some() {
                    updated.manual_sent_at = status.manual_sent_at;
                }
                self.statuses.insert(String::from_str(key), updated);
                proof {
                    assert forall|j: int| 0 <= j < before.len() implies #[trigger] self.statuses.entries@[j].0@ == before[j].0@ by {}
                    assert(self.status_order() =~= old(self).status_order());
                    self.lemma_keys_follow_order();
                }
                return;
            }
            self.statuses.insert(String::from_str(key), status);
            proof {
                assert forall|j: int| 0 <= j < before.len() implies #[trigger] self.statuses.entries@[j].0@ == before[j].0@ by {}
                assert(self.status_order() =~= old(self).status_order());
                self.lemma_keys_follow_order();
            }
            return;
        }
        self.statuses.insert(String::from_str(key), status);
        if self.statuses.entries.len() > DISCORD_AUTO_TRACKER_MAX_ENTRIES {
            proof {
                assert(self.statuses.entries@[0] == before[0]);
                assert(self.statuses.entries@[self.statuses.entries@.len() - 1].0@ == key@);
                crate::keyed::lemma_entries_map(self.statuses.entries@);
            }
            self.statuses.remove_first();
        }
        proof {
            assert(self.status_order() =~= if before.len() < DISCORD_AUTO_TRACKER_MAX_ENTRIES {
                old(self).status_order().push(key@)
            } else {
                old(self).status_order().push(key@).drop_first()
            });
            self.lemma_keys_follow_order();
        }
    }

    /// The stored status of `key`, if any.
    pub fn status(&self, key: &str) -> (r: Option<DiscordAlertPublicStatus>)
        requires
            self.wf(),
        ensures
            r == if self.statuses().contains_key(key@) {
                Some(self.statuses()[key@])
            } else {
                None
            },
    {
        match self.statuses.find(key) {
            Some(i) => Some(self.statuses.entries[i].1.duplicate()),
            None => None,
        }
    }
}

/// Forgets every candidate and status.
pub fn reset_discord_auto_push_for_tests(tracker: &mut DiscordAutoPushTracker)
    ensures
        final(tracker).wf(),
        final(tracker).seen_keys() == Set::<Seq<char>>::empty(),
        final(tracker).statuses() == Map::<Seq<char>, DiscordAlertPublicStatus>::empty(),
{
    *tracker = DiscordAutoPushTracker::new();
}

/// The public status stored for `key`.
pub fn discord_alert_status_for_key(tracker: &DiscordAutoPushTracker, key: &str) -> (r: Option<
    DiscordAlertPublicStatus,
>)
    requires
        tracker.wf(),
    ensures
        r == if tracker.statuses().contains_key(key@) {
            Some(tracker.statuses()[key@])
        } else {
            None
        },
{
    tracker.status(key)
}

/// Stores the public status of `key`.
pub fn set_discord_alert_status(tracker: &mut DiscordAutoPushTracker, key: &str, status: DiscordAlertPublicStatus)
    requires
        old(tracker).wf(),
    ensures
        final(tracker).wf(),
        final(tracker).statuses().contains_key(key@),
        final(tracker).statuses()[key@] == merged_status(
            if old(tracker).statuses().contains_key(key@) {
                Some(old(tracker).statuses()[key@])
            } else {
                None
            },
            status,
        ),
        final(tracker).seen_keys() == old(tracker).seen_keys(),
        forall|k: Seq<char>|
            k != key@ && #[trigger] final(tracker).statuses().contains_key(k) ==> old(
                tracker,
            ).statuses().contains_key(k) && final(tracker).statuses()[k] == old(
                tracker,
            ).statuses()[k],
{
    tracker.set_status(key, status);
}

/// A full tracker that takes a new key forgets its oldest one: the order
/// after the call (see `mark_once` and `set_status`, whose remembered keys
/// are the keys of their orders) no longer holds it.
pub proof fn law_full_tracker_forgets_oldest(before: Seq<Seq<char>>, key: Seq<char>)
    requires
        before.no_duplicates(),
        before.len() == DISCORD_AUTO_TRACKER_MAX_ENTRIES,
        !before.contains(key),
    ensures
        !before.push(key).drop_first().to_set().contains(before[0]),
        before.push(key).drop_first().len() == DISCORD_AUTO_TRACKER_MAX_ENTRIES,
{
    let after = before.push(key).drop_first();
    if after.to_set().contains(before[0]) {
        let i = choose|i: int| 0 <= i < after.len() && after[i] == before[0];
        if i + 1 < before.len() {
            assert(before[i + 1] == before[0]);
        } else {
            assert(after[i] == key);
            assert(before.contains(before[0]));
        }
    }
}

/// Once an auto alert is recorded as sent, no later status that says it
/// was not sent can undo that.
pub proof fn law_sent_status_is_terminal(
    existing: DiscordAlertPublicStatus,
    incoming: DiscordAlertPublicStatus,
)
    requires
        existing.auto_sent,
    ensures
        merged_status(Some(existing), incoming).auto_sent,
        !incoming.auto_sent ==> merged_status(Some(existing), incoming).sent_at == existing.sent_at,
        !incoming.auto_sent ==> merged_status(Some(existing), incoming).last_decision
            == existing.last_decision,
{
}

} // verus!
