//! The integer parts of BM25 scoring: the fieldnorm quantization of field
//! lengths and the clause logic that decides which documents a query form
//! matches.

use vstd::prelude::*;
use crate::infra::term_index::{InMemoryTermIndex, QueryTerm, find_term};

verus! {

/// How the terms of one query form combine: `Or` (a document matches when
/// any term hits it) or `And` (every term must hit it).
#[derive(Debug, Clone, Copy, PartialEq, Eq, Structural)]
pub enum TermOperator {
    Or,
    And,
}

/// Length value encoded by fieldnorm id `id` (0..=255): ids below 24 stand
/// for themselves, above that each group of eight ids doubles the step.
pub open spec fn fieldnorm_decode(id: u32) -> u32 {
    if id < 24 {
        id
    } else {
        let x = (id - 24) as u32;
        let bits = x & 7u32;
        let shift = x >> 3u32;
        (24 + if shift == 0 {
            bits
        } else {
            ((bits | 8u32) << ((shift - 1) as u32)) as u32
        }) as u32
    }
}

/// Largest fieldnorm id in `0..=id` whose decoded length does not exceed
/// `raw_len`.
pub open spec fn fieldnorm_id_at_most(raw_len: u32, id: u32) -> u32
    decreases id,
{
    if id == 0 {
        0
    } else if fieldnorm_decode(id) <= raw_len {
        id
    } else {
        fieldnorm_id_at_most(raw_len, (id - 1) as u32)
    }
}

proof fn lemma_decode_step(id: u32)
    requires
        id < 255,
    ensures
        fieldnorm_decode(id) < fieldnorm_decode((id + 1) as u32),
{
    assert(id < 255u32 ==> fieldnorm_decode(id) < fieldnorm_decode((id + 1) as u32)) by (bit_vector);
}

/// Decoded fieldnorm lengths strictly increase with the id.
pub proof fn lemma_decode_increasing(a: u32, b: u32)
    requires
        a < b <= 255,
    ensures
        fieldnorm_decode(a) < fieldnorm_decode(b),
    decreases b - a,
{
    lemma_decode_step((b - 1) as u32);
    if a + 1 < b {
        lemma_decode_increasing(a, (b - 1) as u32);
    }
}

proof fn lemma_id_at_most(raw_len: u32, lo: u32, id: u32)
    requires
        lo <= id <= 255,
        fieldnorm_decode(lo) <= raw_len,
        forall|j: u32| lo < j <= 255 ==> fieldnorm_decode(j) > raw_len,
    ensures
        fieldnorm_id_at_most(raw_len, id) == lo,
    decreases id,
{
    if id > lo {
        lemma_id_at_most(raw_len, lo, (id - 1) as u32);
    } else if id > 0 {
    }
}

fn decode(id: u32) -> (res: u32)
    requires
        id <= 255,
    ensures
        res == fieldnorm_decode(id),
{
    if id < 24 {
        id
    } else {
        let x = id - 24;
        let bits = x & 7;
        let shift = x >> 3;
        assert(x <= 231u32 ==> x >> 3u32 <= 28u32) by (bit_vector);
        assert(bits <= 7) by (bit_vector)
            requires
                bits == x & 7u32,
        ;
        if shift == 0 {
            24 + bits
        } else {
            assert(bits <= 7u32 && 1u32 <= shift <= 28u32 ==> ((bits | 8u32) << ((shift - 1) as u32)) <= 2013265920u32) by (bit_vector);
            24 + ((bits | 8) << (shift - 1))
        }
    }
}

/// Fieldnorm quantization of a field length: the decoded value at the
/// largest id whose decoded value does not exceed `raw_len`.
pub fn tantivy_fieldnorm(raw_len: u32) -> (res: u32)
    ensures
        res == fieldnorm_decode(fieldnorm_id_at_most(raw_len, 255)),
        res <= raw_len,
{
    let mut lo: u32 = 0;
    let mut hi: u32 = 255;
    while lo < hi
        invariant
            lo <= hi <= 255,
            fieldnorm_decode(lo) <= raw_len,
            forall|j: u32| hi < j <= 255 ==> fieldnorm_decode(j) > raw_len,
        decreases hi - lo,
    {
        let mid = (lo + hi + 1) / 2;
        if decode(mid) <= raw_len {
            lo = mid;
        } else {
            proof {
                assert forall|j: u32| mid <= j <= 255 implies fieldnorm_decode(j) > raw_len by {
                    if j > mid {
                        lemma_decode_increasing(mid, j);
                    }
                }
            }
            hi = mid - 1;
        }
    }
    proof {
        lemma_id_at_most(raw_len, lo, 255);
    }
    decode(lo)
}

/// Some posting of `text` in an active field names document `doc`.
pub open spec fn term_hits(index: InMemoryTermIndex, text: Seq<char>, active: Seq<bool>, doc: int) -> bool {
    exists|i: int, p: int|
        0 <= i < index.terms.len() && index.terms@[i].term@ == text && 0 <= p < index.terms@[i].postings.len()
            && (#[trigger] index.terms@[i].postings@[p]).0 == doc && active[index.terms@[i].postings@[p].1 as int]
}

/// Whether a query form matches document `doc` under `operator`.
pub open spec fn form_matches_doc(
    index: InMemoryTermIndex,
    terms: Seq<QueryTerm>,
    active: Seq<bool>,
    operator: TermOperator,
    doc: int,
) -> bool {
    match operator {
        TermOperator::Or => exists|j: int| 0 <= j < terms.len() && #[trigger] term_hits(index, terms[j].text@, active, doc),
        TermOperator::And => forall|j: int| 0 <= j < terms.len() ==> #[trigger] term_hits(index, terms[j].text@, active, doc),
    }
}

/// Documents hit by one term: postings in fields marked active.
fn term_hit_docs(index: &InMemoryTermIndex, term: &QueryTerm, active: &[bool; 3]) -> (hit: Vec<bool>)
    requires
        index.wf(),
    ensures
        hit.len() == index.n_docs,
        forall|d: int| 0 <= d < index.n_docs ==> #[trigger] hit@[d] == term_hits(*index, term.text@, active@, d),
{
    let n = index.n_docs as usize;
    let mut hit: Vec<bool> = Vec::new();
    for k in 0..n
        invariant
            hit.len() == k,
            forall|d: int| 0 <= d < k ==> !#[trigger] hit@[d],
    {
        hit.push(false);
    }
    match find_term(&index.terms, &term.text) {
        None => {
            proof {
                assert forall|d: int| 0 <= d < index.n_docs implies #[trigger] hit@[d] == term_hits(*index, term.text@, active@, d) by {
                    if term_hits(*index, term.text@, active@, d) {
                        let (i, p) = choose|i: int, p: int|
                            0 <= i < index.terms.len() && index.terms@[i].term@ == term.text@ && 0 <= p < index.terms@[i].postings.len()
                                && (#[trigger] index.terms@[i].postings@[p]).0 == d && active@[index.terms@[i].postings@[p].1 as int];
                        assert(index.terms@[i].term@ != term.text@);
                    }
                }
            }
        },
        Some(i) => {
            let postings = &index.terms[i].postings;
            for p in 0..postings.len()
                invariant
                    index.wf(),
                    i < index.terms.len(),
                    index.terms@[i as int].term@ == term.text@,
                    postings@ == index.terms@[i as int].postings@,
                    hit.len() == index.n_docs,
                    forall|d: int| 0 <= d < index.n_docs ==> #[trigger] hit@[d] == exists|q: int|
                        0 <= q < p && (#[trigger] postings@[q]).0 == d && active@[postings@[q].1 as int],
            {
                let (doc, field, _tf) = postings[p];
                proof {
                    assert(index.terms@[i as int].postings@[p as int] == postings@[p as int]);
                }
                let ghost before = hit@;
                if active[field as usize] {
                    hit.set(doc as usize, true);
                }
                proof {
                    assert forall|d: int| 0 <= d < index.n_docs implies #[trigger] hit@[d] == exists|q: int|
                        0 <= q < p + 1 && (#[trigger] postings@[q]).0 == d && active@[postings@[q].1 as int] by {
                        if exists|q: int| 0 <= q < p + 1 && (#[trigger] postings@[q]).0 == d && active@[postings@[q].1 as int] {
                            let q = choose|q: int| 0 <= q < p + 1 && (#[trigger] postings@[q]).0 == d && active@[postings@[q].1 as int];
                            if q < p {
                                assert(before[d]);
                            }
                        }
                        if before[d] {
                            let q = choose|q: int| 0 <= q < p && (#[trigger] postings@[q]).0 == d && active@[postings@[q].1 as int];
                        }
                    }
                }
            }
            proof {
                assert forall|d: int| 0 <= d < index.n_docs implies #[trigger] hit@[d] == term_hits(*index, term.text@, active@, d) by {
                    if term_hits(*index, term.text@, active@, d) {
                        let (i2, q) = choose|i2: int, q: int|
                            0 <= i2 < index.terms.len() && index.terms@[i2].term@ == term.text@ && 0 <= q < index.terms@[i2].postings.len()
                                && (#[trigger] index.terms@[i2].postings@[q]).0 == d && active@[index.terms@[i2].postings@[q].1 as int];
                        if i2 != i as int {
                            if i2 < i as int {
                                assert(index.terms@[i2].term@ != index.terms@[i as int].term@);
                            } else {
                                assert(index.terms@[i as int].term@ != index.terms@[i2].term@);
                            }
                        }
                        assert(postings@[q] == index.terms@[i2].postings@[q]);
                    }
                    if hit@[d] {
                        let q = choose|q: int| 0 <= q < postings.len() && (#[trigger] postings@[q]).0 == d && active@[postings@[q].1 as int];
                        assert(index.terms@[i as int].postings@[q] == postings@[q]);
                    }
                }
            }
        },
    }
    hit
}

/// Which documents one query form matches.
///
/// `active[f]` tells whether field `f` contributes to the score (a field
/// with weight zero never does). `Or` starts with no document and adds every
/// document a term hits; `And` starts with every document and keeps those
/// that each term hits, so a term absent from the corpus matches nothing.
pub fn form_matches(
    index: &InMemoryTermIndex,
    terms: &[QueryTerm],
    active: &[bool; 3],
    operator: TermOperator,
) -> (matched: Vec<bool>)
    requires
        index.wf(),
    ensures
        matched.len() == index.n_docs,
        forall|d: int| 0 <= d < index.n_docs ==> #[trigger] matched@[d] == form_matches_doc(*index, terms@, active@, operator, d),
{
    let n = index.n_docs as usize;
    let init = operator == TermOperator::And;
    let mut matched: Vec<bool> = Vec::new();
    for k in 0..n
        invariant
            matched.len() == k,
            forall|d: int| 0 <= d < k ==> #[trigger] matched@[d] == init,
    {
        matched.push(init);
    }
    for j in 0..terms.len()
        invariant
            index.wf(),
            n == index.n_docs,
            init == (operator == TermOperator::And),
            matched.len() == n,
            forall|d: int| 0 <= d < n ==> #[trigger] matched@[d] == match operator {
                TermOperator::Or => exists|a: int| 0 <= a < j && #[trigger] term_hits(*index, terms@[a].text@, active@, d),
                TermOperator::And => forall|a: int| 0 <= a < j ==> #[trigger] term_hits(*index, terms@[a].text@, active@, d),
            },
    {
        let hit = term_hit_docs(index, &terms[j], active);
        let ghost before = matched@;
        for d in 0..n
            invariant
                n == index.n_docs,
                hit.len() == n,
                matched.len() == n,
                forall|e: int| d <= e < n ==> #[trigger] matched@[e] == before[e],
                forall|e: int| 0 <= e < d ==> #[trigger] matched@[e] == match operator {
                    TermOperator::Or => before[e] || hit@[e],
                    TermOperator::And => before[e] && hit@[e],
                },
        {
            let v = match operator {
                TermOperator::Or => matched[d] || hit[d],
                TermOperator::And => matched[d] && hit[d],
            };
            matched.set(d, v);
        }
        proof {
            assert forall|d: int| 0 <= d < n implies #[trigger] matched@[d] == match operator {
                TermOperator::Or => exists|a: int| 0 <= a < j + 1 && #[trigger] term_hits(*index, terms@[a].text@, active@, d),
                TermOperator::And => forall|a: int| 0 <= a < j + 1 ==> #[trigger] term_hits(*index, terms@[a].text@, active@, d),
            } by {
                assert(hit@[d] == term_hits(*index, terms@[j as int].text@, active@, d));
                match operator {
                    TermOperator::Or => {
                        if exists|a: int| 0 <= a < j + 1 && #[trigger] term_hits(*index, terms@[a].text@, active@, d) {
                            let a = choose|a: int| 0 <= a < j + 1 && #[trigger] term_hits(*index, terms@[a].text@, active@, d);
                            if a < j {
                                assert(before[d]);
                            }
                        }
                    },
                    TermOperator::And => {
                        if before[d] && hit@[d] {
                            assert forall|a: int| 0 <= a < j + 1 implies #[trigger] term_hits(*index, terms@[a].text@, active@, d) by {
                                if a < j {
                                }
                            }
                        }
                    },
                }
            }
        }
    }
    matched
}

} // verus!
