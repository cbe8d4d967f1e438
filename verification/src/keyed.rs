//! A small map from string keys to values, kept as a vector of entries with
//! distinct keys, and viewed as a `Map<Seq<char>, V>`.
use vstd::prelude::*;

verus! {

pub open spec fn keys_unique<V>(s: Seq<(String, V)>) -> bool {
    forall|i: int, j: int| 0 <= i < j < s.len() ==> #[trigger] s[i].0@ != #[trigger] s[j].0@
}

/// The map that a sequence of entries denotes (a later entry wins, which
/// never matters while keys are distinct).
pub open spec fn entries_map<V>(s: Seq<(String, V)>) -> Map<Seq<char>, V>
    decreases s.len(),
{
    if s.len() == 0 {
        Map::empty()
    } else {
        entries_map(s.drop_last()).insert(s.last().0@, s.last().1)
    }
}

pub proof fn lemma_entries_map<V>(s: Seq<(String, V)>)
    requires
        keys_unique(s),
    ensures
        forall|k: Seq<char>| #[trigger]
            entries_map(s).contains_key(k) <==> exists|i: int| 0 <= i < s.len() && s[i].0@ == k,
        forall|i: int| 0 <= i < s.len() ==> #[trigger] entries_map(s)[s[i].0@] == s[i].1,
        entries_map(s).dom().finite(),
        entries_map(s).dom().len() == s.len(),
    decreases s.len(),
{
    if s.len() > 0 {
        let t = s.drop_last();
        assert(keys_unique(t)) by {
            assert forall|i: int, j: int| 0 <= i < j < t.len() implies #[trigger] t[i].0@
                != #[trigger] t[j].0@ by {
                assert(t[i] == s[i] && t[j] == s[j]);
            }
        }
        lemma_entries_map(t);
        let last = s.last();
        assert(!entries_map(t).contains_key(last.0@)) by {
            if entries_map(t).contains_key(last.0@) {
                let i = choose|i: int| 0 <= i < t.len() && t[i].0@ == last.0@;
                assert(s[i].0@ != s[s.len() - 1].0@);
            }
        }
        assert forall|k: Seq<char>| #[trigger]
            entries_map(s).contains_key(k) <==> exists|i: int| 0 <= i < s.len() && s[i].0@ == k by {
            if entries_map(s).contains_key(k) && k != last.0@ {
                let i = choose|i: int| 0 <= i < t.len() && t[i].0@ == k;
                assert(s[i] == t[i]);
            }
            if exists|i: int| 0 <= i < s.len() && s[i].0@ == k {
                let i = choose|i: int| 0 <= i < s.len() && s[i].0@ == k;
                if i < s.len() - 1 {
                    assert(t[i] == s[i]);
                }
            }
        }
        assert forall|i: int| 0 <= i < s.len() implies #[trigger] entries_map(s)[s[i].0@]
            == s[i].1 by {
            if i < s.len() - 1 {
                assert(t[i] == s[i]);
                assert(s[i].0@ != s[s.len() - 1].0@);
            }
        }
    }
}

/// The entries of a keyed table.
pub struct Keyed<V> {
    pub entries: Vec<(String, V)>,
}

impl<V> Keyed<V> {
    pub open spec fn wf(&self) -> bool {
        keys_unique(self.entries@)
    }

    pub open spec fn view(&self) -> Map<Seq<char>, V> {
        entries_map(self.entries@)
    }

    pub fn new() -> (r: Self)
        ensures
            r.wf(),
            r.view() == Map::<Seq<char>, V>::empty(),
            r.entries@.len() == 0,
    {
        Keyed { entries: Vec::new() }
    }

    pub fn len(&self) -> (r: usize)
        requires
            self.wf(),
        ensures
            r == self.view().dom().len(),
            r == self.entries@.len(),
    {
        proof {
            lemma_entries_map(self.entries@);
        }
        self.entries.len()
    }

    /// Position of `key`, if present.
    pub fn find(&self, key: &str) -> (r: Option<usize>)
        requires
            self.wf(),
        ensures
            r matches Some(i) ==> i < self.entries@.len() && self.entries@[i as int].0@ == key@,
            r is None <==> !self.view().contains_key(key@),
            r matches Some(i) ==> self.view()[key@] == self.entries@[i as int].1,
    {
        proof {
            lemma_entries_map(self.entries@);
        }
        let mut i: usize = 0;
        while i < self.entries.len()
            invariant
                self.wf(),
                i <= self.entries@.len(),
                forall|j: int| 0 <= j < i ==> self.entries@[j].0@ != key@,
            decreases self.entries.len() - i,
        {
            if crate::keyed::str_eq(self.entries[i].0.as_str(), key) {
                proof {
                    lemma_entries_map(self.entries@);
                    assert(self.entries@[i as int].0@ == key@);
                }
                return Some(i);
            }
            i = i + 1;
        }
        None
    }

    /// The value stored under `key`, if any.
    pub fn get(&self, key: &str) -> (r: Option<&V>)
        requires
            self.wf(),
        ensures
            r is None <==> !self.view().contains_key(key@),
            r matches Some(v) ==> *v == self.view()[key@],
    {
        match self.find(key) {
            Some(i) => Some(&self.entries[i].1),
            None => None,
        }
    }

    /// Sets `key` to `value`.
    pub fn insert(&mut self, key: String, value: V)
        requires
            old(self).wf(),
        ensures
            final(self).wf(),
            final(self).view() == old(self).view().insert(key@, value),
            !old(self).view().contains_key(key@) ==> final(self).entries@ == old(self).entries@.push(
                (key, value),
            ),
            old(self).view().contains_key(key@) ==> final(self).entries@.len()
                == old(self).entries@.len(),
            old(self).view().contains_key(key@) ==> forall|j: int|
                0 <= j < old(self).entries@.len() ==> #[trigger] final(self).entries@[j].0@ == old(
                    self,
                ).entries@[j].0@,
    {
        proof {
            lemma_entries_map(self.entries@);
        }
        match self.find(key.as_str()) {
            Some(i) => {
                let ghost before = self.entries@;
                self.entries.set(i, (key, value));
                proof {
                    let after = self.entries@;
                    assert forall|a: int, b: int| 0 <= a < b < after.len() implies #[trigger] after[a].0@
                        != #[trigger] after[b].0@ by {
                        assert(before[a].0@ != before[b].0@);
                    }
                    lemma_entries_map(after);
                    assert(self.view() =~= old(self).view().insert(key@, value)) by {
                        assert forall|k: Seq<char>| #[trigger] self.view().contains_key(k)
                            <==> old(self).view().insert(key@, value).contains_key(k) by {
                            if self.view().contains_key(k) && k != key@ {
                                let j = choose|j: int| 0 <= j < after.len() && after[j].0@ == k;
                                assert(before[j] == after[j]);
                            }
                            if old(self).view().contains_key(k) {
                                let j = choose|j: int| 0 <= j < before.len() && before[j].0@ == k;
                                assert(after[j].0@ == before[j].0@);
                            }
                        }
                        assert forall|k: Seq<char>| #[trigger] self.view().contains_key(k)
                            implies self.view()[k] == old(self).view().insert(key@, value)[k] by {
                            let j = choose|j: int| 0 <= j < after.len() && after[j].0@ == k;
                            if j != i {
                                assert(before[j] == after[j]);
                            }
                        }
                    }
                }
            },
            None => {
                let ghost before = self.entries@;
                self.entries.push((key, value));
                proof {
                    let after = self.entries@;
                    assert forall|a: int, b: int| 0 <= a < b < after.len() implies #[trigger] after[a].0@
                        != #[trigger] after[b].0@ by {
                        if b == after.len() - 1 {
                            assert(before[a].0@ != key@) by {
                                if before[a].0@ == key@ {
                                    assert(old(self).view().contains_key(key@));
                                }
                            }
                        } else {
                            assert(before[a].0@ != before[b].0@);
                        }
                    }
                    assert(after.drop_last() =~= before);
                }
            },
        }
    }

    /// Removes `key`, if present.
    pub fn remove(&mut self, key: &str)
        requires
            old(self).wf(),
        ensures
            final(self).wf(),
            final(self).view() == old(self).view().remove(key@),
    {
        proof {
            lemma_entries_map(self.entries@);
        }
        if let Some(i) = self.find(key) {
            let ghost before = self.entries@;
            let _ = self.entries.remove(i);
            proof {
                let after = self.entries@;
                assert forall|a: int, b: int| 0 <= a < b < after.len() implies #[trigger] after[a].0@
                    != #[trigger] after[b].0@ by {
                    let a0 = if a < i { a } else { a + 1 };
                    let b0 = if b < i { b } else { b + 1 };
                    assert(after[a] == before[a0]);
                    assert(after[b] == before[b0]);
                }
                lemma_entries_map(after);
                assert forall|k: Seq<char>| #[trigger] self.view().contains_key(k)
                    <==> old(self).view().remove(key@).contains_key(k) by {
                    if self.view().contains_key(k) {
                        let j = choose|j: int| 0 <= j < after.len() && after[j].0@ == k;
                        let j0 = if j < i { j } else { j + 1 };
                        assert(after[j] == before[j0]);
                        assert(before[j0].0@ != before[i as int].0@);
                    }
                    if old(self).view().remove(key@).contains_key(k) {
                        let j = choose|j: int| 0 <= j < before.len() && before[j].0@ == k;
                        assert(j != i);
                        if j < i {
                            assert(after[j] == before[j]);
                        } else {
                            assert(after[j - 1] == before[j]);
                        }
                    }
                }
                assert forall|k: Seq<char>| #[trigger] self.view().contains_key(k)
                    implies self.view()[k] == old(self).view().remove(key@)[k] by {
                    let j = choose|j: int| 0 <= j < after.len() && after[j].0@ == k;
                    let j0 = if j < i { j } else { j + 1 };
                    assert(after[j] == before[j0]);
                }
                assert(self.view() =~= old(self).view().remove(key@));
            }
        }
    }
}

impl<V> Keyed<V> {
    /// Keeps exactly the entries whose flag is set, where `flags[i]` is
    /// `keep` of the value of entry `i`.
    pub fn retain_flags(&mut self, flags: &Vec<bool>, Ghost(keep): Ghost<spec_fn(V) -> bool>)
        requires
            old(self).wf(),
            flags@.len() == old(self).entries@.len(),
            forall|i: int| 0 <= i < flags@.len() ==> #[trigger] flags@[i] == keep(
                old(self).entries@[i].1,
            ),
        ensures
            final(self).wf(),
            final(self).entries@ == filter_entries(old(self).entries@, keep),
            final(self).view() == Map::new(
                |k: Seq<char>| old(self).view().contains_key(k) && keep(old(self).view()[k]),
                |k: Seq<char>| old(self).view()[k],
            ),
    {
        let ghost orig = self.entries@;
        let mut rest: Vec<(String, V)> = Vec::new();
        std::mem::swap(&mut rest, &mut self.entries);
        let n = rest.len();
        let mut i: usize = 0;
        while i < n
            invariant
                i <= n,
                n == orig.len(),
                flags@.len() == n,
                forall|j: int| 0 <= j < n ==> #[trigger] flags@[j] == keep(orig[j].1),
                rest@ == orig.skip(i as int),
                self.entries@ == filter_entries(orig.take(i as int), keep),
            decreases n - i,
        {
            let e = rest.remove(0);
            proof {
                assert(e == orig[i as int]);
                assert(orig.take(i + 1).drop_last() =~= orig.take(i as int));
                assert(rest@ =~= orig.skip(i + 1));
            }
            if flags[i] {
                self.entries.push(e);
            }
            i = i + 1;
        }
        proof {
            assert(orig.take(n as int) =~= orig);
            lemma_filter_entries(orig, keep);
        }
    }
}

impl<V> Keyed<V> {
    /// Removes the oldest entry (the first one).
    pub fn remove_first(&mut self)
        requires
            old(self).wf(),
            old(self).entries@.len() > 0,
        ensures
            final(self).wf(),
            final(self).entries@ == old(self).entries@.drop_first(),
            final(self).view() == old(self).view().remove(old(self).entries@[0].0@),
    {
        let ghost before = self.entries@;
        let _ = self.entries.remove(0);
        proof {
            let after = self.entries@;
            assert(after =~= before.drop_first());
            assert forall|a: int, b: int| 0 <= a < b < after.len() implies #[trigger] after[a].0@
                != #[trigger] after[b].0@ by {
                assert(after[a] == before[a + 1] && after[b] == before[b + 1]);
            }
            lemma_entries_map(before);
            lemma_entries_map(after);
            let k0 = before[0].0@;
            assert forall|k: Seq<char>| #[trigger] self.view().contains_key(k)
                <==> old(self).view().remove(k0).contains_key(k) by {
                if self.view().contains_key(k) {
                    let j = choose|j: int| 0 <= j < after.len() && after[j].0@ == k;
                    assert(after[j] == before[j + 1]);
                    assert(before[0].0@ != before[j + 1].0@);
                }
                if old(self).view().remove(k0).contains_key(k) {
                    let j = choose|j: int| 0 <= j < before.len() && before[j].0@ == k;
                    assert(j != 0);
                    assert(after[j - 1] == before[j]);
                }
            }
            assert forall|k: Seq<char>| #[trigger] self.view().contains_key(k)
                implies self.view()[k] == old(self).view().remove(k0)[k] by {
                let j = choose|j: int| 0 <= j < after.len() && after[j].0@ == k;
                assert(after[j] == before[j + 1]);
            }
            assert(self.view() =~= old(self).view().remove(k0));
        }
    }
}

/// Entries of `s` kept by `keep`, in order.
pub open spec fn filter_entries<V>(s: Seq<(String, V)>, keep: spec_fn(V) -> bool) -> Seq<
    (String, V),
>
    decreases s.len(),
{
    if s.len() == 0 {
        s
    } else {
        let rest = filter_entries(s.drop_last(), keep);
        if keep(s.last().1) {
            rest.push(s.last())
        } else {
            rest
        }
    }
}

pub proof fn lemma_filter_entries<V>(s: Seq<(String, V)>, keep: spec_fn(V) -> bool)
    requires
        keys_unique(s),
    ensures
        keys_unique(filter_entries(s, keep)),
        forall|e| filter_entries(s, keep).contains(e) ==> s.contains(e) && keep(e.1),
        forall|i: int| 0 <= i < s.len() && keep(s[i].1) ==> filter_entries(s, keep).contains(
            #[trigger] s[i],
        ),
        entries_map(filter_entries(s, keep)) == Map::new(
            |k: Seq<char>| entries_map(s).contains_key(k) && keep(entries_map(s)[k]),
            |k: Seq<char>| entries_map(s)[k],
        ),
    decreases s.len(),
{
    let f = filter_entries(s, keep);
    if s.len() == 0 {
        assert(entries_map(f) =~= Map::new(
            |k: Seq<char>| entries_map(s).contains_key(k) && keep(entries_map(s)[k]),
            |k: Seq<char>| entries_map(s)[k],
        ));
    } else {
        let t = s.drop_last();
        assert(keys_unique(t)) by {
            assert forall|i: int, j: int| 0 <= i < j < t.len() implies #[trigger] t[i].0@
                != #[trigger] t[j].0@ by {
                assert(t[i] == s[i] && t[j] == s[j]);
            }
        }
        lemma_filter_entries(t, keep);
        let ft = filter_entries(t, keep);
        let last = s.last();
        assert forall|e| #[trigger] ft.contains(e) implies e.0@ != last.0@ by {
            assert(t.contains(e));
            let i = choose|i: int| 0 <= i < t.len() && t[i] == e;
            assert(s[i] == t[i]);
        }
        if keep(last.1) {
            assert(f == ft.push(last));
            assert forall|i: int, j: int| 0 <= i < j < f.len() implies #[trigger] f[i].0@
                != #[trigger] f[j].0@ by {
                if j == f.len() - 1 {
                    assert(ft.contains(f[i]));
                } else {
                    assert(f[i] == ft[i] && f[j] == ft[j]);
                }
            }
        }
        assert forall|e| f.contains(e) implies s.contains(e) && keep(e.1) by {
            if ft.contains(e) {
                assert(t.contains(e));
                let i = choose|i: int| 0 <= i < t.len() && t[i] == e;
                assert(s[i] == t[i]);
            } else {
                assert(e == last);
            }
        }
        assert forall|i: int| 0 <= i < s.len() && keep(s[i].1) implies f.contains(#[trigger] s[i]) by {
            if i < s.len() - 1 {
                assert(t[i] == s[i]);
                assert(ft.contains(t[i]));
                if keep(last.1) {
                    let j = choose|j: int| 0 <= j < ft.len() && ft[j] == t[i];
                    assert(f[j] == ft[j]);
                }
            } else {
                assert(f[f.len() - 1] == last);
            }
        }
        lemma_entries_map(s);
        lemma_entries_map(t);
        lemma_entries_map(ft);
        lemma_entries_map(f);
        let target = Map::new(
            |k: Seq<char>| entries_map(s).contains_key(k) && keep(entries_map(s)[k]),
            |k: Seq<char>| entries_map(s)[k],
        );
        assert forall|k: Seq<char>| #[trigger] entries_map(f).contains_key(k)
            <==> target.contains_key(k) by {
            if entries_map(f).contains_key(k) {
                let j = choose|j: int| 0 <= j < f.len() && f[j].0@ == k;
                assert(f.contains(f[j]));
                let i = choose|i: int| 0 <= i < s.len() && s[i] == f[j];
                assert(entries_map(s)[s[i].0@] == s[i].1);
            }
            if target.contains_key(k) {
                let i = choose|i: int| 0 <= i < s.len() && s[i].0@ == k;
                assert(entries_map(s)[s[i].0@] == s[i].1);
                assert(f.contains(s[i]));
                let j = choose|j: int| 0 <= j < f.len() && f[j] == s[i];
                assert(f[j].0@ == k);
            }
        }
        assert forall|k: Seq<char>| #[trigger] entries_map(f).contains_key(k)
            implies entries_map(f)[k] == target[k] by {
            let j = choose|j: int| 0 <= j < f.len() && f[j].0@ == k;
            assert(f.contains(f[j]));
            let i = choose|i: int| 0 <= i < s.len() && s[i] == f[j];
            assert(entries_map(s)[s[i].0@] == s[i].1);
            assert(entries_map(f)[f[j].0@] == f[j].1);
        }
        assert(entries_map(f) =~= target);
    }
}

/// Whether two string slices hold the same characters.
pub fn str_eq(a: &str, b: &str) -> (r: bool)
    ensures
        r == (a@ == b@),
{
    let n = a.unicode_len();
    if n != b.unicode_len() {
        return false;
    }
    let mut i: usize = 0;
    while i < n
        invariant
            i <= n,
            n == a@.len(),
            n == b@.len(),
            forall|j: int| 0 <= j < i ==> a@[j] == b@[j],
        decreases n - i,
    {
        if a.get_char(i) != b.get_char(i) {
            return false;
        }
        i = i + 1;
    }
    proof {
        assert(a@ =~= b@);
    }
    true
}

/// The keys of `s` strictly increase in the order of their characters'
/// code points (the order in which a `BTreeMap<String, _>` keeps them).
pub open spec fn keys_ascending<V>(s: Seq<(String, V)>) -> bool {
    forall|i: int, j: int|
        0 <= i < j < s.len() ==> crate::projection::key_lt(#[trigger] s[i].0@, #[trigger] s[j].0@)
}

/// Two keys that agree on their first `i` characters, where `a` then ends
/// and `b` goes on, or where `a`'s next character is the smaller, are in
/// key order.
pub proof fn lemma_key_lt_at(a: Seq<char>, b: Seq<char>, i: int)
    requires
        0 <= i <= a.len(),
        i <= b.len(),
        forall|j: int| 0 <= j < i ==> a[j] == b[j],
        (i == a.len() && i < b.len()) || (i < a.len() && i < b.len() && (a[i] as u32) < (
        b[i] as u32)),
    ensures
        crate::projection::key_lt(a, b),
    decreases i,
{
    if i > 0 {
        lemma_key_lt_at(a.drop_first(), b.drop_first(), i - 1);
    }
}

/// Appending an entry whose key comes after every key keeps the keys
/// ascending.
pub proof fn lemma_push_ascending<V>(s: Seq<(String, V)>, e: (String, V))
    requires
        keys_ascending(s),
        forall|i: int| 0 <= i < s.len() ==> crate::projection::key_lt(#[trigger] s[i].0@, e.0@),
    ensures
        keys_ascending(s.push(e)),
{
    let t = s.push(e);
    assert forall|i: int, j: int| 0 <= i < j < t.len() implies crate::projection::key_lt(
        #[trigger] t[i].0@,
        #[trigger] t[j].0@,
    ) by {
        assert(t[i] == s[i]);
        if j < s.len() {
            assert(t[j] == s[j]);
        }
    }
}

} // verus!
