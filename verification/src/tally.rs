//! Counting keys into a list ordered by key, as an ordered map of counts
//! yields them: keys are pairs of texts, ordered by the first text and then
//! the second, each text by its characters.
use vstd::prelude::*;

use crate::projection::{key_lt, key_lt_exec, lemma_key_lt_irrefl, lemma_key_lt_total, lemma_key_lt_trans};
use crate::text::{eq_chars, prefix_chars};

verus! {

/// `a` comes before `b`: by the first text, then by the second.
pub open spec fn pair_lt(a: (Seq<char>, Seq<char>), b: (Seq<char>, Seq<char>)) -> bool {
    key_lt(a.0, b.0) || (a.0 == b.0 && key_lt(a.1, b.1))
}

/// How often `k` occurs in `keys`.
pub open spec fn count_of(keys: Seq<(Seq<char>, Seq<char>)>, k: (Seq<char>, Seq<char>)) -> nat
    decreases keys.len(),
{
    if keys.len() == 0 {
        0
    } else {
        count_of(keys.drop_last(), k) + if keys.last() == k {
            1nat
        } else {
            0nat
        }
    }
}

/// `h` lists every key of `keys` once, in key order, with how often it
/// occurs.
pub open spec fn is_tally(h: Seq<((Seq<char>, Seq<char>), nat)>, keys: Seq<(Seq<char>, Seq<char>)>) -> bool {
    &&& forall|i: int, j: int| 0 <= i < j < h.len() ==> pair_lt(#[trigger] h[i].0, #[trigger] h[j].0)
    &&& forall|i: int| 0 <= i < h.len() ==> #[trigger] h[i].1 == count_of(keys, h[i].0) && h[i].1 > 0
    &&& forall|k: (Seq<char>, Seq<char>)|
        #[trigger] count_of(keys, k) > 0 ==> exists|i: int| 0 <= i < h.len() && h[i].0 == k
}

pub proof fn lemma_pair_lt_irrefl(a: (Seq<char>, Seq<char>))
    ensures
        !pair_lt(a, a),
{
    lemma_key_lt_irrefl(a.0);
    lemma_key_lt_irrefl(a.1);
}

pub proof fn lemma_pair_lt_total(a: (Seq<char>, Seq<char>), b: (Seq<char>, Seq<char>))
    requires
        a != b,
    ensures
        pair_lt(a, b) || pair_lt(b, a),
{
    if a.0 != b.0 {
        lemma_key_lt_total(a.0, b.0);
    } else {
        assert(a.1 != b.1);
        lemma_key_lt_total(a.1, b.1);
    }
}

pub proof fn lemma_pair_lt_trans(a: (Seq<char>, Seq<char>), b: (Seq<char>, Seq<char>), c: (Seq<char>, Seq<char>))
    requires
        pair_lt(a, b),
        pair_lt(b, c),
    ensures
        pair_lt(a, c),
{
    if key_lt(a.0, b.0) && key_lt(b.0, c.0) {
        lemma_key_lt_trans(a.0, b.0, c.0);
    } else if a.0 == b.0 && b.0 == c.0 {
        lemma_key_lt_trans(a.1, b.1, c.1);
    }
}

proof fn lemma_count_push(keys: Seq<(Seq<char>, Seq<char>)>, k: (Seq<char>, Seq<char>), x: (Seq<char>, Seq<char>))
    ensures
        count_of(keys.push(k), x) == count_of(keys, x) + if k == x {
            1nat
        } else {
            0nat
        },
{
    assert(keys.push(k).drop_last() =~= keys);
}

pub proof fn lemma_count_le_len(keys: Seq<(Seq<char>, Seq<char>)>, x: (Seq<char>, Seq<char>))
    ensures
        count_of(keys, x) <= keys.len(),
    decreases keys.len(),
{
    if keys.len() > 0 {
        lemma_count_le_len(keys.drop_last(), x);
    }
}

/// One key of a tally and its count.
pub struct Tally {
    pub first: Vec<char>,
    pub second: Vec<char>,
    pub count: usize,
}

pub open spec fn tally_view(t: Tally) -> ((Seq<char>, Seq<char>), nat) {
    ((t.first@, t.second@), t.count as nat)
}

pub open spec fn tallies_view(h: Seq<Tally>) -> Seq<((Seq<char>, Seq<char>), nat)> {
    h.map_values(|t: Tally| tally_view(t))
}

fn pair_lt_exec(a1: &Vec<char>, a2: &Vec<char>, b1: &Vec<char>, b2: &Vec<char>) -> (r: bool)
    ensures
        r == pair_lt((a1@, a2@), (b1@, b2@)),
{
    if key_lt_exec(a1, b1) {
        true
    } else if eq_chars(a1, b1) {
        key_lt_exec(a2, b2)
    } else {
        false
    }
}

fn copy_chars(v: &Vec<char>) -> (r: Vec<char>)
    ensures
        r@ == v@,
{
    let r = prefix_chars(v, v.len());
    proof {
        assert(v@.subrange(0, v@.len() as int) =~= v@);
    }
    r
}

/// Counts one more occurrence of the key `(a, b)`.
fn tally_add(h: &mut Vec<Tally>, a: &Vec<char>, b: &Vec<char>, Ghost(keys): Ghost<Seq<(Seq<char>, Seq<char>)>>)
    requires
        is_tally(tallies_view(old(h)@), keys),
        keys.len() + 1 < usize::MAX,
    ensures
        is_tally(tallies_view(final(h)@), keys.push((a@, b@))),
{
    let ghost hv = tallies_view(h@);
    let ghost k = (a@, b@);
    let ghost keys2 = keys.push(k);
    let mut p: usize = 0;
    while p < h.len() && pair_lt_exec(&h[p].first, &h[p].second, a, b)
        invariant
            p <= h@.len(),
            hv == tallies_view(h@),
            k == (a@, b@),
            forall|i: int| 0 <= i < p ==> pair_lt(#[trigger] hv[i].0, k),
        decreases h.len() - p,
    {
        p = p + 1;
    }
    if p < h.len() && eq_chars(&h[p].first, a) && eq_chars(&h[p].second, b) {
        proof {
            lemma_count_le_len(keys, k);
        }
        let t = Tally {
            first: copy_chars(&h[p].first),
            second: copy_chars(&h[p].second),
            count: h[p].count + 1,
        };
        h.set(p, t);
        proof {
            let hv2 = tallies_view(h@);
            assert(hv2 =~= hv.update(p as int, (k, hv[p as int].1 + 1)));
            assert forall|i: int| 0 <= i < hv2.len() implies #[trigger] hv2[i].1 == count_of(
                keys2,
                hv2[i].0,
            ) && hv2[i].1 > 0 by {
                lemma_count_push(keys, k, hv2[i].0);
                if i != p {
                    if hv[i].0 == k {
                        if i < p {
                            lemma_pair_lt_irrefl(k);
                        } else {
                            assert(pair_lt(hv[p as int].0, hv[i].0));
                            lemma_pair_lt_irrefl(k);
                        }
                    }
                }
            }
            assert forall|x: (Seq<char>, Seq<char>)| #[trigger] count_of(keys2, x) > 0 implies exists|
                i: int,
            | 0 <= i < hv2.len() && hv2[i].0 == x by {
                lemma_count_push(keys, k, x);
                if x == k {
                    assert(hv2[p as int].0 == x);
                } else {
                    let i = choose|i: int| 0 <= i < hv.len() && hv[i].0 == x;
                    assert(hv2[i].0 == x);
                }
            }
        }
    } else {
        let ghost at = p as int;
        proof {
            if p < h@.len() {
                assert(!pair_lt(hv[at].0, k));
                assert(hv[at].0 != k);
                lemma_pair_lt_total(hv[at].0, k);
            }
            assert forall|i: int| at <= i < hv.len() implies pair_lt(k, #[trigger] hv[i].0) by {
                if i > at {
                    lemma_pair_lt_trans(k, hv[at].0, hv[i].0);
                }
            }
            assert forall|i: int| 0 <= i < hv.len() implies #[trigger] hv[i].0 != k by {
                lemma_pair_lt_irrefl(k);
                if i < at {
                    assert(pair_lt(hv[i].0, k));
                } else {
                    assert(pair_lt(k, hv[i].0));
                }
            }
            if count_of(keys, k) > 0 {
                let i = choose|i: int| 0 <= i < hv.len() && hv[i].0 == k;
                assert(hv[i].0 != k);
            }
        }
        let t = Tally { first: copy_chars(a), second: copy_chars(b), count: 1 };
        h.insert(p, t);
        proof {
            let hv2 = tallies_view(h@);
            assert(hv2 =~= hv.insert(at, (k, 1nat)));
            assert forall|i: int, j: int| 0 <= i < j < hv2.len() implies pair_lt(
                #[trigger] hv2[i].0,
                #[trigger] hv2[j].0,
            ) by {
                if j < at {
                } else if j == at {
                } else if i < at {
                    lemma_pair_lt_trans(hv2[i].0, k, hv2[j].0);
                } else if i == at {
                } else {
                    assert(hv2[i].0 == hv[i - 1].0);
                    assert(hv2[j].0 == hv[j - 1].0);
                }
            }
            assert forall|i: int| 0 <= i < hv2.len() implies #[trigger] hv2[i].1 == count_of(
                keys2,
                hv2[i].0,
            ) && hv2[i].1 > 0 by {
                lemma_count_push(keys, k, hv2[i].0);
                if i < at {
                    assert(hv2[i] == hv[i]);
                } else if i > at {
                    assert(hv2[i] == hv[i - 1]);
                }
            }
            assert forall|x: (Seq<char>, Seq<char>)| #[trigger] count_of(keys2, x) > 0 implies exists|
                i: int,
            | 0 <= i < hv2.len() && hv2[i].0 == x by {
                lemma_count_push(keys, k, x);
                if x == k {
                    assert(hv2[at].0 == x);
                } else {
                    let i = choose|i: int| 0 <= i < hv.len() && hv[i].0 == x;
                    if i < at {
                        assert(hv2[i].0 == x);
                    } else {
                        assert(hv2[i + 1].0 == x);
                    }
                }
            }
        }
    }
}

pub open spec fn keys_view(v: Seq<(Vec<char>, Vec<char>)>) -> Seq<(Seq<char>, Seq<char>)> {
    v.map_values(|p: (Vec<char>, Vec<char>)| (p.0@, p.1@))
}

/// The tally of `keys`: each key once, in key order, with its count.
pub fn tally(keys: &Vec<(Vec<char>, Vec<char>)>) -> (r: Vec<Tally>)
    requires
        keys@.len() + 1 < usize::MAX,
    ensures
        is_tally(tallies_view(r@), keys_view(keys@)),
{
    let mut h: Vec<Tally> = Vec::new();
    let mut i: usize = 0;
    proof {
        assert(keys_view(keys@).take(0) =~= Seq::<(Seq<char>, Seq<char>)>::empty());
        assert(tallies_view(h@) =~= Seq::<((Seq<char>, Seq<char>), nat)>::empty());
    }
    while i < keys.len()
        invariant
            i <= keys@.len(),
            keys@.len() + 1 < usize::MAX,
            is_tally(tallies_view(h@), keys_view(keys@).take(i as int)),
        decreases keys.len() - i,
    {
        let ghost before = keys_view(keys@).take(i as int);
        tally_add(&mut h, &keys[i].0, &keys[i].1, Ghost(before));
        proof {
            assert(keys_view(keys@).take(i + 1) =~= before.push((keys@[i as int].0@, keys@[i as int].1@)));
        }
        i = i + 1;
    }
    proof {
        assert(keys_view(keys@).take(keys@.len() as int) =~= keys_view(keys@));
    }
    h
}

} // verus!
