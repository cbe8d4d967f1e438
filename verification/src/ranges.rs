//! Time ranges of lifecycle flow: ordered, and merged when they overlap or
//! lie within a second of each other, so that separated events stay
//! disjoint.
use vstd::prelude::*;
use vstd::relations::{sorted_by, total_ordering};

use crate::keyed::Keyed;

verus! {

/// Largest gap, in milliseconds, that still joins two ranges.
pub const RANGE_JOIN_GAP_MS: i64 = 1_000;

/// A range with its ends in order.
pub open spec fn normalized(r: (i64, i64)) -> (i64, i64) {
    if r.0 > r.1 {
        (r.1, r.0)
    } else {
        r
    }
}

/// Order by start, then by end.
pub open spec fn pair_le(a: (i64, i64), b: (i64, i64)) -> bool {
    a.0 < b.0 || (a.0 == b.0 && a.1 <= b.1)
}

pub open spec fn pair_order() -> spec_fn((i64, i64), (i64, i64)) -> bool {
    |a: (i64, i64), b: (i64, i64)| pair_le(a, b)
}

/// `end + 1000`, staying at the largest time.
pub open spec fn reach(end: i64) -> int {
    if end + RANGE_JOIN_GAP_MS > i64::MAX {
        i64::MAX as int
    } else {
        end + RANGE_JOIN_GAP_MS
    }
}

pub open spec fn max_i64(a: i64, b: i64) -> i64 {
    if a >= b {
        a
    } else {
        b
    }
}

/// Merging a sorted list: each range joins the last merged one when it
/// starts within its reach, and opens a new one otherwise.
pub open spec fn merge_sorted(s: Seq<(i64, i64)>) -> Seq<(i64, i64)>
    decreases s.len(),
{
    if s.len() == 0 {
        seq![]
    } else {
        let m = merge_sorted(s.drop_last());
        let r = s.last();
        if m.len() > 0 && r.0 <= reach(m.last().1) {
            m.drop_last().push((m.last().0, max_i64(m.last().1, r.1)))
        } else {
            m.push(r)
        }
    }
}

/// The merged form of a list of ranges: ends put in order, ranges sorted,
/// then merged.
pub open spec fn coalesced(ranges: Seq<(i64, i64)>) -> Seq<(i64, i64)> {
    merge_sorted(ranges.map_values(|r: (i64, i64)| normalized(r)).sort_by(pair_order()))
}

pub proof fn lemma_pair_order_total()
    ensures
        total_ordering(pair_order()),
{
    let f = pair_order();
    assert(vstd::relations::reflexive(f));
    assert(vstd::relations::antisymmetric(f)) by {
        assert forall|a: (i64, i64), b: (i64, i64)| #[trigger] f(a, b) && #[trigger] f(b, a) implies a
            == b by {
            assert(a.0 == b.0 && a.1 == b.1);
        }
    }
    assert(vstd::relations::transitive(f));
    assert(vstd::relations::strongly_connected(f));
}

fn normalize_all(ranges: &Vec<(i64, i64)>) -> (r: Vec<(i64, i64)>)
    ensures
        r@ == ranges@.map_values(|p: (i64, i64)| normalized(p)),
{
    let mut out: Vec<(i64, i64)> = Vec::new();
    let mut i: usize = 0;
    while i < ranges.len()
        invariant
            i <= ranges@.len(),
            out@ == ranges@.take(i as int).map_values(|p: (i64, i64)| normalized(p)),
        decreases ranges.len() - i,
    {
        let (a, b) = ranges[i];
        let n = if a > b {
            (b, a)
        } else {
            (a, b)
        };
        out.push(n);
        proof {
            assert(ranges@.take(i + 1).map_values(|p: (i64, i64)| normalized(p)) =~= ranges@.take(
                i as int,
            ).map_values(|p: (i64, i64)| normalized(p)).push(normalized(ranges@[i as int])));
        }
        i = i + 1;
    }
    proof {
        assert(ranges@.take(ranges@.len() as int) =~= ranges@);
    }
    out
}

fn le_exec(a: (i64, i64), b: (i64, i64)) -> (r: bool)
    ensures
        r == pair_le(a, b),
{
    a.0 < b.0 || (a.0 == b.0 && a.1 <= b.1)
}

/// Sorts by start, then end.
fn sort_pairs(v: &Vec<(i64, i64)>) -> (r: Vec<(i64, i64)>)
    ensures
        r@ == v@.sort_by(pair_order()),
{
    let mut acc: Vec<(i64, i64)> = Vec::new();
    let mut i: usize = 0;
    proof {
        assert(v@.take(0) =~= acc@);
    }
    while i < v.len()
        invariant
            i <= v@.len(),
            sorted_by(acc@, pair_order()),
            acc@.to_multiset() == v@.take(i as int).to_multiset(),
        decreases v.len() - i,
    {
        let x = v[i];
        let mut pos: usize = 0;
        while pos < acc.len() && le_exec(acc[pos], x)
            invariant
                pos <= acc@.len(),
                forall|j: int| 0 <= j < pos ==> pair_le(#[trigger] acc@[j], x),
            decreases acc.len() - pos,
        {
            pos = pos + 1;
        }
        let ghost old_acc = acc@;
        acc.insert(pos, x);
        proof {
            vstd::seq_lib::to_multiset_insert(old_acc, pos as int, x);
            assert(v@.take(i + 1) =~= v@.take(i as int).push(x));
            vstd::seq_lib::to_multiset_build(v@.take(i as int), x);
            assert forall|a: int, b: int| 0 <= a < b < acc@.len() implies #[trigger] pair_order()(
                acc@[a],
                acc@[b],
            ) by {
                if b < pos {
                    assert(pair_order()(old_acc[a], old_acc[b]));
                } else if b == pos {
                    assert(pair_le(old_acc[a], x));
                } else if a < pos {
                    assert(pair_le(old_acc[a], x));
                    assert(!pair_le(old_acc[pos as int], x));
                    if pos < b - 1 {
                        assert(pair_order()(old_acc[pos as int], old_acc[b - 1]));
                    }
                } else if a == pos {
                    assert(!pair_le(old_acc[pos as int], x));
                    if pos < b - 1 {
                        assert(pair_order()(old_acc[pos as int], old_acc[b - 1]));
                    }
                } else {
                    assert(pair_order()(old_acc[a - 1], old_acc[b - 1]));
                }
            }
        }
        i = i + 1;
    }
    proof {
        assert(v@.take(v@.len() as int) =~= v@);
        lemma_pair_order_total();
        v@.lemma_sort_by_ensures(pair_order());
        vstd::seq_lib::lemma_sorted_unique(acc@, v@.sort_by(pair_order()), pair_order());
    }
    acc
}

fn reach_exec(end: i64) -> (r: i64)
    ensures
        r == reach(end),
{
    if end > i64::MAX - RANGE_JOIN_GAP_MS {
        i64::MAX
    } else {
        end + RANGE_JOIN_GAP_MS
    }
}

/// Merges a sorted list.
fn merge_pairs(s: &Vec<(i64, i64)>) -> (r: Vec<(i64, i64)>)
    ensures
        r@ == merge_sorted(s@),
{
    let mut out: Vec<(i64, i64)> = Vec::new();
    let mut i: usize = 0;
    while i < s.len()
        invariant
            i <= s@.len(),
            out@ == merge_sorted(s@.take(i as int)),
        decreases s.len() - i,
    {
        proof {
            assert(s@.take(i + 1).drop_last() =~= s@.take(i as int));
        }
        let (a, b) = s[i];
        let n = out.len();
        if n > 0 && a <= reach_exec(out[n - 1].1) {
            let last = out.pop().unwrap();
            let end = if last.1 >= b {
                last.1
            } else {
                b
            };
            out.push((last.0, end));
        } else {
            out.push((a, b));
        }
        i = i + 1;
    }
    proof {
        assert(s@.take(s@.len() as int) =~= s@);
    }
    out
}

/// The merged form of one symbol's ranges.
pub fn coalesce_ranges(ranges: &Vec<(i64, i64)>) -> (r: Vec<(i64, i64)>)
    ensures
        r@ == coalesced(ranges@),
{
    let n = normalize_all(ranges);
    let sorted = sort_pairs(&n);
    merge_pairs(&sorted)
}

/// Every symbol's ranges merged; the symbols stay as they were.
pub fn coalesce_lifecycle_flow_ranges(ranges_by_symbol: Keyed<Vec<(i64, i64)>>) -> (r: Keyed<
    Vec<(i64, i64)>,
>)
    requires
        ranges_by_symbol.wf(),
    ensures
        r.wf(),
        r.entries@.len() == ranges_by_symbol.entries@.len(),
        forall|i: int|
            0 <= i < r.entries@.len() ==> #[trigger] r.entries@[i].0 == ranges_by_symbol.entries@[i].0
                && r.entries@[i].1@ == coalesced(ranges_by_symbol.entries@[i].1@),
        crate::keyed::keys_ascending(ranges_by_symbol.entries@) ==> crate::keyed::keys_ascending(
            r.entries@,
        ),
{
    let mut out: Vec<(String, Vec<(i64, i64)>)> = Vec::new();
    let mut i: usize = 0;
    while i < ranges_by_symbol.entries.len()
        invariant
            i <= ranges_by_symbol.entries@.len(),
            out@.len() == i,
            forall|j: int|
                0 <= j < i ==> #[trigger] out@[j].0 == ranges_by_symbol.entries@[j].0
                    && out@[j].1@ == coalesced(ranges_by_symbol.entries@[j].1@),
        decreases ranges_by_symbol.entries.len() - i,
    {
        let key = ranges_by_symbol.entries[i].0.clone();
        let merged = coalesce_ranges(&ranges_by_symbol.entries[i].1);
        out.push((key, merged));
        i = i + 1;
    }
    proof {
        assert forall|a: int, b: int| 0 <= a < b < out@.len() implies out@[a].0@ != out@[b].0@ by {
            assert(out@[a].0 == ranges_by_symbol.entries@[a].0);
            assert(out@[b].0 == ranges_by_symbol.entries@[b].0);
        }
        assert forall|a: int, b: int|
            0 <= a < b < out@.len() && crate::keyed::keys_ascending(
                ranges_by_symbol.entries@,
            ) implies crate::projection::key_lt(#[trigger] out@[a].0@, #[trigger] out@[b].0@) by {
            assert(out@[a].0 == ranges_by_symbol.entries@[a].0);
            assert(out@[b].0 == ranges_by_symbol.entries@[b].0);
        }
    }
    Keyed { entries: out }
}

// ---------------------------------------------------------------------------
// Laws
// ---------------------------------------------------------------------------

/// The properties a merge keeps of a sorted list of ordered ranges.
pub open spec fn merge_shape(s: Seq<(i64, i64)>, m: Seq<(i64, i64)>) -> bool {
    &&& forall|k: int| 0 <= k < m.len() ==> (#[trigger] m[k]).0 <= m[k].1
    &&& forall|k: int| 0 <= k < m.len() - 1 ==> #[trigger] m[k + 1].0 > reach(m[k].1)
    &&& s.len() > 0 ==> m.len() > 0 && m.last().0 <= s.last().0
    &&& forall|i: int|
        0 <= i < s.len() ==> exists|k: int|
            0 <= k < m.len() && m[k].0 <= (#[trigger] s[i]).0 && s[i].1 <= m[k].1
}

proof fn lemma_merge_shape(s: Seq<(i64, i64)>)
    requires
        sorted_by(s, pair_order()),
        forall|i: int| 0 <= i < s.len() ==> (#[trigger] s[i]).0 <= s[i].1,
    ensures
        merge_shape(s, merge_sorted(s)),
    decreases s.len(),
{
    if s.len() > 0 {
        let p = s.drop_last();
        assert forall|a: int, b: int| 0 <= a < b < p.len() implies #[trigger] pair_order()(
            p[a],
            p[b],
        ) by {
            assert(pair_order()(s[a], s[b]));
        }
        assert forall|i: int| 0 <= i < p.len() implies (#[trigger] p[i]).0 <= p[i].1 by {
            assert(s[i].0 <= s[i].1);
        }
        lemma_merge_shape(p);
        let m = merge_sorted(p);
        let r = s.last();
        let n = merge_sorted(s);
        if p.len() > 0 {
            assert(pair_order()(s[p.len() - 1], s[s.len() - 1]));
        }
        if m.len() > 0 && r.0 <= reach(m.last().1) {
            let last = (m.last().0, max_i64(m.last().1, r.1));
            assert(n == m.drop_last().push(last));
            assert forall|i: int| 0 <= i < s.len() implies exists|k: int|
                0 <= k < n.len() && n[k].0 <= (#[trigger] s[i]).0 && s[i].1 <= n[k].1 by {
                if i == s.len() - 1 {
                    assert(n[n.len() - 1] == last);
                } else {
                    assert(p[i] == s[i]);
                    let k = choose|k: int| 0 <= k < m.len() && m[k].0 <= p[i].0 && p[i].1 <= m[k].1;
                    if k == m.len() - 1 {
                        assert(n[k] == last);
                    } else {
                        assert(n[k] == m[k]);
                    }
                }
            }
            assert forall|k: int| 0 <= k < n.len() - 1 implies #[trigger] n[k + 1].0 > reach(
                n[k].1,
            ) by {
                assert(n[k] == m[k]);
                if k + 1 < n.len() - 1 {
                    assert(n[k + 1] == m[k + 1]);
                } else {
                    assert(n[k + 1].0 == m[k + 1].0);
                }
            }
            assert forall|k: int| 0 <= k < n.len() implies (#[trigger] n[k]).0 <= n[k].1 by {
                if k < n.len() - 1 {
                    assert(n[k] == m[k]);
                }
            }
        } else {
            assert(n == m.push(r));
            assert forall|i: int| 0 <= i < s.len() implies exists|k: int|
                0 <= k < n.len() && n[k].0 <= (#[trigger] s[i]).0 && s[i].1 <= n[k].1 by {
                if i == s.len() - 1 {
                    assert(n[n.len() - 1] == r);
                } else {
                    assert(p[i] == s[i]);
                    let k = choose|k: int| 0 <= k < m.len() && m[k].0 <= p[i].0 && p[i].1 <= m[k].1;
                    assert(n[k] == m[k]);
                }
            }
            assert forall|k: int| 0 <= k < n.len() - 1 implies #[trigger] n[k + 1].0 > reach(
                n[k].1,
            ) by {
                assert(n[k] == m[k]);
                if k + 1 < n.len() - 1 {
                    assert(n[k + 1] == m[k + 1]);
                }
            }
            assert forall|k: int| 0 <= k < n.len() implies (#[trigger] n[k]).0 <= n[k].1 by {
                if k < n.len() - 1 {
                    assert(n[k] == m[k]);
                }
            }
        }
    }
}

proof fn lemma_sorted_normalized(ranges: Seq<(i64, i64)>)
    ensures
        sorted_by(coalesce_input(ranges), pair_order()),
        forall|i: int|
            0 <= i < coalesce_input(ranges).len() ==> (#[trigger] coalesce_input(ranges)[i]).0
                <= coalesce_input(ranges)[i].1,
        forall|i: int|
            0 <= i < ranges.len() ==> coalesce_input(ranges).contains(normalized(#[trigger] ranges[i])),
{
    lemma_pair_order_total();
    let n = ranges.map_values(|r: (i64, i64)| normalized(r));
    n.lemma_sort_by_ensures(pair_order());
    let s = n.sort_by(pair_order());
    assert forall|i: int| 0 <= i < s.len() implies (#[trigger] s[i]).0 <= s[i].1 by {
        vstd::seq_lib::to_multiset_contains(s, s[i]);
        assert(s.to_multiset().count(s[i]) > 0);
        vstd::seq_lib::to_multiset_contains(n, s[i]);
        let j = choose|j: int| 0 <= j < n.len() && n[j] == s[i];
        assert(n[j] == normalized(ranges[j]));
    }
    assert forall|i: int| 0 <= i < ranges.len() implies s.contains(normalized(#[trigger] ranges[i])) by {
        assert(n[i] == normalized(ranges[i]));
        vstd::seq_lib::to_multiset_contains(n, n[i]);
        vstd::seq_lib::to_multiset_contains(s, n[i]);
    }
}

/// The sorted, ordered ranges that are merged.
pub open spec fn coalesce_input(ranges: Seq<(i64, i64)>) -> Seq<(i64, i64)> {
    ranges.map_values(|r: (i64, i64)| normalized(r)).sort_by(pair_order())
}

/// Merged ranges keep their ends in order, and each starts beyond the
/// reach of the one before (more than a second after its end), so merged
/// ranges are disjoint and ordered.
pub proof fn law_coalesced_ranges_disjoint(ranges: Seq<(i64, i64)>)
    ensures
        forall|k: int| 0 <= k < coalesced(ranges).len() ==> (#[trigger] coalesced(ranges)[k]).0
            <= coalesced(ranges)[k].1,
        forall|k: int|
            0 <= k < coalesced(ranges).len() - 1 ==> #[trigger] coalesced(ranges)[k + 1].0 > reach(
                coalesced(ranges)[k].1,
            ),
{
    lemma_sorted_normalized(ranges);
    lemma_merge_shape(coalesce_input(ranges));
}

/// Some range of `m` contains `r`.
pub open spec fn covered_by(m: Seq<(i64, i64)>, r: (i64, i64)) -> bool {
    exists|k: int| 0 <= k < m.len() && (#[trigger] m[k]).0 <= r.0 && r.1 <= m[k].1
}

/// Every given range, with its ends in order, lies inside one merged range.
pub proof fn law_coalesced_ranges_cover(ranges: Seq<(i64, i64)>)
    ensures
        forall|i: int|
            0 <= i < ranges.len() ==> covered_by(coalesced(ranges), normalized(#[trigger] ranges[i])),
{
    lemma_sorted_normalized(ranges);
    let s = coalesce_input(ranges);
    lemma_merge_shape(s);
    assert forall|i: int| 0 <= i < ranges.len() implies covered_by(
        coalesced(ranges),
        normalized(#[trigger] ranges[i]),
    ) by {
        assert(s.contains(normalized(ranges[i])));
        let j = choose|j: int| 0 <= j < s.len() && s[j] == normalized(ranges[i]);
        let m = merge_sorted(s);
        assert(m == coalesced(ranges));
        assert(s[j].0 <= s[j].1);
        let k = choose|k: int| 0 <= k < m.len() && m[k].0 <= s[j].0 && s[j].1 <= m[k].1;
        assert(m[k].0 <= normalized(ranges[i]).0 && normalized(ranges[i]).1 <= m[k].1);
    }
}

} // verus!
