//! Positions grouped by key, the groups in ascending key order: keys are
//! sequences of integers compared lexicographically, the order of ordered
//! maps keyed by tuples of integers and strings.

use vstd::prelude::*;

verus! {

/// Lexicographic order on integer sequences (a proper prefix comes first).
pub open spec fn seq_lt(a: Seq<u32>, b: Seq<u32>) -> bool
    decreases a.len(),
{
    if a.len() == 0 {
        b.len() > 0
    } else if b.len() == 0 {
        false
    } else if a[0] < b[0] {
        true
    } else if a[0] == b[0] {
        seq_lt(a.drop_first(), b.drop_first())
    } else {
        false
    }
}

proof fn lemma_seq_lt_trichotomy(a: Seq<u32>, b: Seq<u32>)
    ensures
        a == b || seq_lt(a, b) || seq_lt(b, a),
        !(seq_lt(a, b) && seq_lt(b, a)),
        !seq_lt(a, a),
    decreases a.len(),
{
    if a.len() > 0 && b.len() > 0 {
        lemma_seq_lt_trichotomy(a.drop_first(), b.drop_first());
        if a[0] == b[0] && a.drop_first() == b.drop_first() {
            assert(a =~= seq![a[0]] + a.drop_first());
            assert(b =~= seq![b[0]] + b.drop_first());
        }
    } else if a.len() > 0 {
        lemma_seq_lt_trichotomy(a.drop_first(), a.drop_first());
    } else if b.len() == 0 {
        assert(a =~= b);
    }
}

proof fn lemma_seq_lt_transitive(a: Seq<u32>, b: Seq<u32>, c: Seq<u32>)
    requires
        seq_lt(a, b),
        seq_lt(b, c),
    ensures
        seq_lt(a, c),
    decreases a.len(),
{
    if a.len() > 0 && b.len() > 0 && c.len() > 0 && a[0] == b[0] && b[0] == c[0] {
        lemma_seq_lt_transitive(a.drop_first(), b.drop_first(), c.drop_first());
    }
}

/// Comparing two sequences with a common first element compares the rest.
pub(crate) proof fn lemma_seq_lt_cons(x: u32, a: Seq<u32>, y: u32, b: Seq<u32>)
    ensures
        seq_lt(seq![x] + a, seq![y] + b) == (x < y || (x == y && seq_lt(a, b))),
{
    assert((seq![x] + a).drop_first() =~= a);
    assert((seq![y] + b).drop_first() =~= b);
    assert((seq![x] + a)[0] == x);
    assert((seq![y] + b)[0] == y);
}

/// Between sequences with prefixes of equal length, the order is that of the
/// prefixes, and of the rests when the prefixes are equal.
pub(crate) proof fn lemma_seq_lt_concat(p: Seq<u32>, a: Seq<u32>, q: Seq<u32>, b: Seq<u32>)
    requires
        p.len() == q.len(),
    ensures
        seq_lt(p + a, q + b) == (seq_lt(p, q) || (p == q && seq_lt(a, b))),
    decreases p.len(),
{
    if p.len() == 0 {
        assert(p + a =~= a);
        assert(q + b =~= b);
        assert(p =~= q);
    } else {
        lemma_seq_lt_concat(p.drop_first(), a, q.drop_first(), b);
        assert(p + a =~= seq![p[0]] + (p.drop_first() + a));
        assert(q + b =~= seq![q[0]] + (q.drop_first() + b));
        assert(p =~= seq![p[0]] + p.drop_first());
        assert(q =~= seq![q[0]] + q.drop_first());
        lemma_seq_lt_cons(p[0], p.drop_first() + a, q[0], q.drop_first() + b);
        lemma_seq_lt_cons(p[0], p.drop_first(), q[0], q.drop_first());
        if p[0] == q[0] && p.drop_first() == q.drop_first() {
            assert(p == q);
        }
        if p == q {
            assert(p.drop_first() == q.drop_first());
        }
    }
}

/// The groups partition the positions of `ks` by key: each group is
/// non-empty, holds positions of one key in increasing order, the groups'
/// keys strictly ascend, and every position lies in some group.
pub open spec fn groups_by_key(groups: Seq<Seq<usize>>, ks: Seq<Seq<u32>>) -> bool {
    &&& forall|g: int| 0 <= g < groups.len() ==> (#[trigger] groups[g]).len() > 0
    &&& forall|g: int, m: int| 0 <= g < groups.len() && 0 <= m < groups[g].len() ==> {
        &&& (#[trigger] groups[g][m]) < ks.len()
        &&& ks[groups[g][m] as int] == ks[groups[g][0] as int]
    }
    &&& forall|g: int, m: int, t: int| 0 <= g < groups.len() && 0 <= m < t < groups[g].len()
        ==> (#[trigger] groups[g][m]) < (#[trigger] groups[g][t])
    &&& forall|g: int, h: int| 0 <= g < h < groups.len()
        ==> seq_lt(ks[(#[trigger] groups[g])[0] as int], ks[(#[trigger] groups[h])[0] as int])
    &&& forall|i: int| 0 <= i < ks.len() ==> #[trigger] in_some_group(groups, i)
}

/// Some group holds position `i`.
pub open spec fn in_some_group(groups: Seq<Seq<usize>>, i: int) -> bool {
    exists|g: int, m: int| 0 <= g < groups.len() && 0 <= m < groups[g].len() && #[trigger] groups[g][m] == i
}

pub open spec fn vec_views(v: Seq<Vec<u32>>) -> Seq<Seq<u32>> {
    v.map_values(|x: Vec<u32>| x@)
}

pub open spec fn group_seqs(v: Seq<Vec<usize>>) -> Seq<Seq<usize>> {
    v.map_values(|x: Vec<usize>| x@)
}

fn less(a: &Vec<u32>, b: &Vec<u32>) -> (res: bool)
    ensures
        res == seq_lt(a@, b@),
{
    let mut i: usize = 0;
    proof {
        assert(a@.subrange(0, a.len() as int) =~= a@);
        assert(b@.subrange(0, b.len() as int) =~= b@);
    }
    while i < a.len() && i < b.len()
        invariant
            i <= a.len(),
            i <= b.len(),
            seq_lt(a@, b@) == seq_lt(a@.subrange(i as int, a.len() as int), b@.subrange(i as int, b.len() as int)),
        decreases a.len() - i,
    {
        let ghost sa = a@.subrange(i as int, a.len() as int);
        let ghost sb = b@.subrange(i as int, b.len() as int);
        proof {
            assert(sa[0] == a@[i as int] && sb[0] == b@[i as int]);
        }
        if a[i] < b[i] {
            return true;
        }
        if a[i] > b[i] {
            return false;
        }
        proof {
            assert(sa.drop_first() =~= a@.subrange(i + 1, a.len() as int));
            assert(sb.drop_first() =~= b@.subrange(i + 1, b.len() as int));
        }
        i = i + 1;
    }
    i == a.len() && i < b.len()
}

/// Whether the key of group `p` comes before the key at position `i`.
fn group_key_less(groups: &Vec<Vec<usize>>, keys: &Vec<Vec<u32>>, p: usize, i: usize) -> (res: bool)
    requires
        i < keys.len(),
        p < groups.len(),
        groups_by_key(group_seqs(groups@), vec_views(keys@).take(i as int)),
    ensures
        res == seq_lt(vec_views(keys@)[group_seqs(groups@)[p as int][0] as int], vec_views(keys@)[i as int]),
{
    let ghost gs = group_seqs(groups@);
    proof {
        assert(gs[p as int] == groups@[p as int]@);
        assert(gs[p as int].len() > 0);
        assert(gs[p as int][0] < i);
    }
    less(&keys[groups[p][0]], &keys[i])
}

/// Whether the key at position `i` comes before the key of group `p`.
fn key_less_than_group(groups: &Vec<Vec<usize>>, keys: &Vec<Vec<u32>>, p: usize, i: usize) -> (res: bool)
    requires
        i < keys.len(),
        p < groups.len(),
        groups_by_key(group_seqs(groups@), vec_views(keys@).take(i as int)),
    ensures
        res == seq_lt(vec_views(keys@)[i as int], vec_views(keys@)[group_seqs(groups@)[p as int][0] as int]),
{
    let ghost gs = group_seqs(groups@);
    proof {
        assert(gs[p as int] == groups@[p as int]@);
        assert(gs[p as int].len() > 0);
        assert(gs[p as int][0] < i);
    }
    less(&keys[i], &keys[groups[p][0]])
}

/// Positions of `keys` grouped by key, the groups in ascending key order.
pub fn group_by_key(keys: &Vec<Vec<u32>>) -> (res: Vec<Vec<usize>>)
    ensures
        groups_by_key(group_seqs(res@), vec_views(keys@)),
{
    let ghost ks = vec_views(keys@);
    let mut groups: Vec<Vec<usize>> = Vec::new();
    for i in 0..keys.len()
        invariant
            ks == vec_views(keys@),
            ks.len() == keys.len(),
            groups_by_key(group_seqs(groups@), ks.take(i as int)),
    {
        let ghost gs = group_seqs(groups@);
        let ghost kt = ks.take(i as int);
        let ghost k2 = ks.take(i + 1);
        proof {
            assert forall|j: int| 0 <= j < i implies #[trigger] k2[j] == kt[j] by {}
        }
        let mut p: usize = 0;
        while p < groups.len() && group_key_less(&groups, keys, p, i)
            invariant
                p <= groups.len(),
                gs == group_seqs(groups@),
                ks == vec_views(keys@),
                ks.len() == keys.len(),
                i < keys.len(),
                kt == ks.take(i as int),
                groups_by_key(gs, kt),
                forall|g: int| 0 <= g < p ==> seq_lt(ks[(#[trigger] gs[g])[0] as int], ks[i as int]),
            decreases groups.len() - p,
        {
            proof {
                assert(gs[p as int] == groups@[p as int]@);
            }
            p = p + 1;
        }
        proof {
            if p < groups.len() {
                assert(gs[p as int] == groups@[p as int]@);
                assert(gs[p as int][0] < i);
                lemma_seq_lt_trichotomy(ks[gs[p as int][0] as int], ks[i as int]);
            }
        }
        if p < groups.len() && !key_less_than_group(&groups, keys, p, i) {
            let mut members = groups.remove(p);
            members.push(i);
            groups.insert(p, members);
            proof {
                let ng = group_seqs(groups@);
                let old_p = gs[p as int];
                assert(ng =~= gs.update(p as int, old_p.push(i)));
                assert(ks[old_p[0] as int] == ks[i as int]);
                assert forall|g: int| 0 <= g < ng.len() implies (#[trigger] ng[g]).len() > 0 by {}
                assert forall|g: int, m: int| 0 <= g < ng.len() && 0 <= m < ng[g].len() implies {
                    &&& (#[trigger] ng[g][m]) < k2.len()
                    &&& k2[ng[g][m] as int] == k2[ng[g][0] as int]
                } by {
                    assert(ng[g][0] == gs[g][0]);
                    if g == p && m == old_p.len() {
                        assert(ng[g][m] == i);
                    } else {
                        assert(ng[g][m] == gs[g][m]);
                    }
                }
                assert forall|g: int, m: int, t: int| 0 <= g < ng.len() && 0 <= m < t < ng[g].len()
                    implies (#[trigger] ng[g][m]) < (#[trigger] ng[g][t]) by {
                    assert(ng[g][m] == gs[g][m]);
                    if !(g == p && t == old_p.len()) {
                        assert(ng[g][t] == gs[g][t]);
                    }
                }
                assert forall|g: int, h: int| 0 <= g < h < ng.len()
                    implies seq_lt(k2[(#[trigger] ng[g])[0] as int], k2[(#[trigger] ng[h])[0] as int]) by {
                    assert(ng[g][0] == gs[g][0] && ng[h][0] == gs[h][0]);
                }
                assert forall|j: int| 0 <= j < k2.len() implies #[trigger] in_some_group(ng, j) by {
                    if j == i {
                        assert(ng[p as int][old_p.len() as int] == j);
                    } else {
                        assert(in_some_group(gs, j));
                        let (g, m) = choose|g: int, m: int| 0 <= g < gs.len() && 0 <= m < gs[g].len() && #[trigger] gs[g][m] == j;
                        assert(ng[g][m] == j);
                    }
                }
            }
        } else {
            let mut members: Vec<usize> = Vec::new();
            members.push(i);
            groups.insert(p, members);
            proof {
                let ng = group_seqs(groups@);
                assert(ng =~= gs.insert(p as int, seq![i]));
                assert forall|g: int| #![trigger ng[g]] 0 <= g < ng.len() implies
                    ng[g] == (if g < p { gs[g] } else if g == p { seq![i] } else { gs[g - 1] }) by {}
                assert forall|g: int| 0 <= g < ng.len() implies (#[trigger] ng[g]).len() > 0 by {}
                assert forall|g: int, m: int| 0 <= g < ng.len() && 0 <= m < ng[g].len() implies {
                    &&& (#[trigger] ng[g][m]) < k2.len()
                    &&& k2[ng[g][m] as int] == k2[ng[g][0] as int]
                } by {
                    if g != p {
                        let og = if g < p { g } else { g - 1 };
                        assert(ng[g] == gs[og]);
                    }
                }
                assert forall|g: int, m: int, t: int| 0 <= g < ng.len() && 0 <= m < t < ng[g].len()
                    implies (#[trigger] ng[g][m]) < (#[trigger] ng[g][t]) by {
                    if g != p {
                        let og = if g < p { g } else { g - 1 };
                        assert(ng[g] == gs[og]);
                    }
                }
                assert forall|g: int, h: int| 0 <= g < h < ng.len()
                    implies seq_lt(k2[(#[trigger] ng[g])[0] as int], k2[(#[trigger] ng[h])[0] as int]) by {
                    let kg = k2[ng[g][0] as int];
                    let kh = k2[ng[h][0] as int];
                    if g < p && h < p {
                        assert(ng[g] == gs[g] && ng[h] == gs[h]);
                    } else if g < p && h == p {
                        assert(ng[g] == gs[g]);
                        assert(seq_lt(ks[gs[g][0] as int], ks[i as int]));
                    } else if g < p {
                        assert(ng[g] == gs[g] && ng[h] == gs[h - 1]);
                        assert(seq_lt(ks[gs[g][0] as int], ks[i as int]));
                        assert(seq_lt(ks[i as int], ks[gs[p as int][0] as int]));
                        if h - 1 > p {
                            assert(seq_lt(kt[gs[p as int][0] as int], kt[gs[h - 1][0] as int]));
                            lemma_seq_lt_transitive(ks[i as int], ks[gs[p as int][0] as int], ks[gs[h - 1][0] as int]);
                        }
                        lemma_seq_lt_transitive(ks[gs[g][0] as int], ks[i as int], ks[gs[h - 1][0] as int]);
                    } else if g == p {
                        assert(ng[h] == gs[h - 1]);
                        assert(seq_lt(ks[i as int], ks[gs[p as int][0] as int]));
                        if h - 1 > p {
                            assert(seq_lt(kt[gs[p as int][0] as int], kt[gs[h - 1][0] as int]));
                            lemma_seq_lt_transitive(ks[i as int], ks[gs[p as int][0] as int], ks[gs[h - 1][0] as int]);
                        }
                    } else {
                        assert(ng[g] == gs[g - 1] && ng[h] == gs[h - 1]);
                    }
                }
                assert forall|j: int| 0 <= j < k2.len() implies #[trigger] in_some_group(ng, j) by {
                    if j == i {
                        assert(ng[p as int][0] == j);
                    } else {
                        assert(in_some_group(gs, j));
                        let (g, m) = choose|g: int, m: int| 0 <= g < gs.len() && 0 <= m < gs[g].len() && #[trigger] gs[g][m] == j;
                        let ng_i = if g < p { g } else { g + 1 };
                        assert(ng[ng_i] == gs[g]);
                        assert(ng[ng_i][m] == j);
                    }
                }
            }
        }
    }
    proof {
        assert(ks.take(keys.len() as int) =~= ks);
    }
    groups
}

} // verus!
