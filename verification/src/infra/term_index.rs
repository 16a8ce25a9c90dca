//! In-memory BM25 term statistics: postings, per-field document
//! frequencies and field lengths, built once from tokenized documents and
//! reused for every parameter set.

use vstd::prelude::*;

verus! {

/// BM25 document fields, in index order title, keywords, content.
#[derive(Debug, Clone, Copy, PartialEq, Eq, Hash, Structural)]
pub enum Field {
    Title,
    Keywords,
    Content,
}

impl Field {
    /// Position of the field in per-field arrays.
    pub open spec fn field_index(self) -> nat {
        match self {
            Field::Title => 0,
            Field::Keywords => 1,
            Field::Content => 2,
        }
    }

    /// The field stored at a position of a per-field array, if any.
    pub open spec fn at_index(idx: int) -> Option<Field> {
        if idx == 0 {
            Some(Field::Title)
        } else if idx == 1 {
            Some(Field::Keywords)
        } else if idx == 2 {
            Some(Field::Content)
        } else {
            None
        }
    }

    /// The three fields in index order.
    pub fn all() -> (res: [Field; 3])
        ensures
            res@ == seq![Field::Title, Field::Keywords, Field::Content],
    {
        let res = [Field::Title, Field::Keywords, Field::Content];
        assert(res@ =~= seq![Field::Title, Field::Keywords, Field::Content]);
        res
    }

    pub fn from_index(idx: usize) -> (res: Option<Field>)
        ensures
            res == Field::at_index(idx as int),
    {
        match idx {
            0 => Some(Field::Title),
            1 => Some(Field::Keywords),
            2 => Some(Field::Content),
            _ => None,
        }
    }

    pub fn index(&self) -> (res: usize)
        ensures
            res == self.field_index(),
    {
        match self {
            Field::Title => 0,
            Field::Keywords => 1,
            Field::Content => 2,
        }
    }
}

/// `from_index` undoes `index`, and every index it accepts is the index of
/// the field it returns.
pub proof fn lemma_field_index_roundtrip(f: Field, idx: int)
    ensures
        Field::at_index(f.field_index() as int) == Some(f),
        f.field_index() < 3,
        Field::at_index(idx) is Some <==> 0 <= idx < 3,
        Field::at_index(idx) is Some ==> Field::at_index(idx)->0.field_index() == idx,
{
}

/// A single query token with its split (auxiliary) flag: `is_split` marks a
/// split form of an identifier, which scoring down-weights.
#[derive(Debug, Clone, PartialEq, Eq)]
pub struct QueryTerm {
    pub text: String,
    pub is_split: bool,
}

/// The dual query forms: the raw form (the query text as typed) and the cleaned
/// form (empty when cleaning left the text unchanged).
#[derive(Debug, Clone, Default)]
pub struct QueryForms {
    pub raw: Vec<QueryTerm>,
    pub clean: Vec<QueryTerm>,
}

impl QueryForms {
    /// Returns whether any term exists across both forms.
    pub fn is_empty(&self) -> (res: bool)
        ensures
            res == (self.raw@.len() != 0 || self.clean@.len() != 0),
    {
        self.raw.len() != 0 || self.clean.len() != 0
    }
}

/// A document whose three fields are already tokenized.
#[derive(Debug, Clone)]
pub struct TokenizedDocument {
    pub title: Vec<String>,
    pub keywords: Vec<String>,
    pub content: Vec<String>,
}

/// Characters of each token.
pub open spec fn token_views(v: Seq<String>) -> Seq<Seq<char>> {
    v.map_values(|s: String| s@)
}

/// Tokens of field `f` (0 title, 1 keywords, 2 content) of a document.
pub open spec fn field_tokens(doc: TokenizedDocument, f: int) -> Seq<String> {
    if f == 0 {
        doc.title@
    } else if f == 1 {
        doc.keywords@
    } else {
        doc.content@
    }
}

/// Number of occurrences of `t` in `s`.
pub open spec fn occurrences(s: Seq<Seq<char>>, t: Seq<char>) -> nat
    decreases s.len(),
{
    if s.len() == 0 {
        0
    } else {
        occurrences(s.drop_last(), t) + if s.last() == t {
            1nat
        } else {
            0nat
        }
    }
}

/// The tokenized fields of a document list in processing order: for each
/// document, its title, keywords and content, as (doc id, field, tokens).
pub open spec fn document_slots(docs: Seq<TokenizedDocument>) -> Seq<(u32, u8, Seq<Seq<char>>)>
    decreases docs.len(),
{
    if docs.len() == 0 {
        Seq::empty()
    } else {
        let d = (docs.len() - 1) as u32;
        let doc = docs.last();
        document_slots(docs.drop_last()) + seq![
            (d, 0u8, token_views(doc.title@)),
            (d, 1u8, token_views(doc.keywords@)),
            (d, 2u8, token_views(doc.content@)),
        ]
    }
}

/// Posting of `t` in one slot: (doc, field, term frequency) when it occurs.
pub open spec fn slot_posting(slot: (u32, u8, Seq<Seq<char>>), t: Seq<char>) -> Seq<(u32, u8, u32)> {
    if occurrences(slot.2, t) > 0 {
        seq![(slot.0, slot.1, occurrences(slot.2, t) as u32)]
    } else {
        Seq::empty()
    }
}

/// Postings of `t` over a slot sequence, in slot order.
pub open spec fn slot_postings(slots: Seq<(u32, u8, Seq<Seq<char>>)>, t: Seq<char>) -> Seq<(u32, u8, u32)>
    decreases slots.len(),
{
    if slots.len() == 0 {
        Seq::empty()
    } else {
        slot_postings(slots.drop_last(), t) + slot_posting(slots.last(), t)
    }
}

/// Number of slots of field `f` in which `t` occurs (its document frequency
/// in that field).
pub open spec fn slot_df(slots: Seq<(u32, u8, Seq<Seq<char>>)>, t: Seq<char>, f: u8) -> nat
    decreases slots.len(),
{
    if slots.len() == 0 {
        0
    } else {
        slot_df(slots.drop_last(), t, f) + if slots.last().1 == f && occurrences(slots.last().2, t) > 0 {
            1nat
        } else {
            0nat
        }
    }
}

/// `t` occurs in some slot.
pub open spec fn slots_contain(slots: Seq<(u32, u8, Seq<Seq<char>>)>, t: Seq<char>) -> bool {
    exists|s: int| 0 <= s < slots.len() && #[trigger] slots[s].2.contains(t)
}

/// Number of documents whose field `f` is non-empty.
pub open spec fn nonempty_docs(docs: Seq<TokenizedDocument>, f: int) -> nat
    decreases docs.len(),
{
    if docs.len() == 0 {
        0
    } else {
        nonempty_docs(docs.drop_last(), f) + if field_tokens(docs.last(), f).len() > 0 {
            1nat
        } else {
            0nat
        }
    }
}

/// Total number of tokens in field `f` across documents.
pub open spec fn total_tokens(docs: Seq<TokenizedDocument>, f: int) -> nat
    decreases docs.len(),
{
    if docs.len() == 0 {
        0
    } else {
        total_tokens(docs.drop_last(), f) + field_tokens(docs.last(), f).len()
    }
}

proof fn lemma_occurrences_bound(s: Seq<Seq<char>>, t: Seq<char>)
    ensures
        occurrences(s, t) <= s.len(),
        occurrences(s, t) > 0 <==> s.contains(t),
    decreases s.len(),
{
    if s.len() > 0 {
        lemma_occurrences_bound(s.drop_last(), t);
        if s.drop_last().contains(t) {
            let j = choose|j: int| 0 <= j < s.drop_last().len() && s.drop_last()[j] == t;
            assert(s[j] == t);
        }
        if s.contains(t) && s.last() != t {
            let j = choose|j: int| 0 <= j < s.len() && s[j] == t;
            assert(s.drop_last()[j] == t);
        }
    }
}

/// Position of `tok` among the counted tokens.
fn find_counted(counted: &Vec<(String, u32)>, tok: &String) -> (res: Option<usize>)
    ensures
        match res {
            Some(i) => i < counted.len() && counted@[i as int].0@ == tok@,
            None => forall|a: int| 0 <= a < counted.len() ==> #[trigger] counted@[a].0@ != tok@,
        },
{
    let mut i: usize = 0;
    while i < counted.len()
        invariant
            i <= counted.len(),
            forall|a: int| 0 <= a < i ==> #[trigger] counted@[a].0@ != tok@,
        decreases counted.len() - i,
    {
        if counted[i].0 == *tok {
            return Some(i);
        }
        i = i + 1;
    }
    None
}

/// Term frequencies of a token list: each distinct token once, in order of
/// first occurrence, with its number of occurrences.
fn count_tokens(tokens: &Vec<String>) -> (res: Vec<(String, u32)>)
    requires
        tokens.len() <= u32::MAX,
    ensures
        forall|i: int, j: int| 0 <= i < j < res.len() ==> #[trigger] res@[i].0@ != #[trigger] res@[j].0@,
        forall|i: int| 0 <= i < res.len() ==> #[trigger] res@[i].1 == occurrences(token_views(tokens@), res@[i].0@),
        forall|i: int| 0 <= i < res.len() ==> token_views(tokens@).contains(#[trigger] res@[i].0@),
        forall|t: Seq<char>| #[trigger] token_views(tokens@).contains(t) ==> exists|i: int| 0 <= i < res.len() && #[trigger] res@[i].0@ == t,
{
    let ghost toks = token_views(tokens@);
    let mut res: Vec<(String, u32)> = Vec::new();
    let mut j: usize = 0;
    while j < tokens.len()
        invariant
            j <= tokens.len(),
            toks == token_views(tokens@),
            tokens.len() <= u32::MAX,
            forall|a: int, b: int| 0 <= a < b < res.len() ==> #[trigger] res@[a].0@ != #[trigger] res@[b].0@,
            forall|i: int| 0 <= i < res.len() ==> #[trigger] res@[i].1 == occurrences(toks.take(j as int), res@[i].0@),
            forall|i: int| 0 <= i < res.len() ==> toks.take(j as int).contains(#[trigger] res@[i].0@),
            forall|t: Seq<char>| toks.take(j as int).contains(t) ==> exists|i: int| 0 <= i < res.len() && #[trigger] res@[i].0@ == t,
        decreases tokens.len() - j,
    {
        let tok = &tokens[j];
        let ghost prev = res@;
        let ghost pre = toks.take(j as int);
        let ghost post = toks.take(j + 1);
        proof {
            assert(post =~= pre.push(tok@));
            assert(post.drop_last() =~= pre);
            assert(toks[j as int] == tok@);
        }
        let found = find_counted(&res, tok);
        match found {
            Some(i) => {
                proof {
                    lemma_occurrences_bound(pre, tok@);
                }
                let count = res[i].1;
                res.set(i, (res[i].0.clone(), count + 1));
            },
            None => {
                proof {
                    lemma_occurrences_bound(pre, tok@);
                    if pre.contains(tok@) {
                        let k = choose|k: int| 0 <= k < prev.len() && #[trigger] prev[k].0@ == tok@;
                        assert(false);
                    }
                }
                res.push((tok.clone(), 1));
            },
        }
        proof {
            assert forall|a: int| 0 <= a < res.len() implies #[trigger] res@[a].1 == occurrences(post, res@[a].0@) by {
                if a < prev.len() {
                    assert(res@[a].0@ == prev[a].0@);
                }
            }
            assert forall|a: int| 0 <= a < res.len() implies post.contains(#[trigger] res@[a].0@) by {
                if a < prev.len() && res@[a].0@ != tok@ {
                    assert(pre.contains(prev[a].0@));
                    let k = choose|k: int| 0 <= k < pre.len() && pre[k] == prev[a].0@;
                    assert(post[k] == pre[k]);
                } else {
                    assert(post[j as int] == tok@);
                }
            }
            assert forall|t: Seq<char>| post.contains(t) implies exists|i: int| 0 <= i < res.len() && #[trigger] res@[i].0@ == t by {
                let k = choose|k: int| 0 <= k < post.len() && post[k] == t;
                if k < j {
                    assert(pre[k] == t);
                    assert(pre.contains(t));
                    let i = choose|i: int| 0 <= i < prev.len() && #[trigger] prev[i].0@ == t;
                    assert(res@[i].0@ == t);
                } else {
                    match found {
                        Some(i) => {
                            assert(res@[i as int].0@ == t);
                        },
                        None => {
                            assert(res@[prev.len() as int].0@ == t);
                        },
                    }
                }
            }
        }
        j = j + 1;
    }
    proof {
        assert(toks.take(tokens.len() as int) =~= toks);
    }
    res
}

/// Statistics of one term.
#[derive(Debug, Clone)]
pub struct TermStats {
    pub term: String,
    /// (doc id, field index, term frequency) for every field occurrence,
    /// in document order, fields in index order within a document
    pub postings: Vec<(u32, u8, u32)>,
    /// number of documents containing the term, per field
    pub field_df: [u32; 3],
}

/// In-memory term-document index built once and reused for all parameter
/// sets: the postings and statistics do not depend on k1, b or the field
/// weights.
#[derive(Debug, Clone)]
pub struct InMemoryTermIndex {
    /// one entry per distinct term, in order of first occurrence
    pub terms: Vec<TermStats>,
    /// per-doc field lengths: [title_len, keywords_len, content_len]
    pub doc_lengths: Vec<[u32; 3]>,
    /// number of docs with non-empty content per field
    pub field_doc_count: [u32; 3],
    /// total tokens per field across all docs
    pub field_total_tokens: [u64; 3],
    pub n_docs: u32,
}

/// No term occurs twice in an entry list.
pub open spec fn distinct_terms(terms: Seq<TermStats>) -> bool {
    forall|i: int, j: int| 0 <= i < j < terms.len() ==> #[trigger] terms[i].term@ != #[trigger] terms[j].term@
}

/// Some entry holds term `t`.
pub open spec fn holds_term(terms: Seq<TermStats>, t: Seq<char>) -> bool {
    exists|i: int| 0 <= i < terms.len() && #[trigger] terms[i].term@ == t
}

/// The entries describe exactly the term statistics of a slot sequence.
pub open spec fn describes_slots(terms: Seq<TermStats>, slots: Seq<(u32, u8, Seq<Seq<char>>)>) -> bool {
    &&& distinct_terms(terms)
    &&& forall|i: int| 0 <= i < terms.len() ==> #[trigger] terms[i].postings@ == slot_postings(slots, terms[i].term@)
    &&& forall|i: int, k: int| 0 <= i < terms.len() && 0 <= k < 3 ==> #[trigger] terms[i].field_df@[k] == slot_df(slots, terms[i].term@, k as u8)
    &&& forall|t: Seq<char>| #[trigger] holds_term(terms, t) <==> slots_contain(slots, t)
}

proof fn lemma_slot_step(slots: Seq<(u32, u8, Seq<Seq<char>>)>, s: (u32, u8, Seq<Seq<char>>), t: Seq<char>)
    ensures
        slot_postings(slots.push(s), t) == slot_postings(slots, t) + slot_posting(s, t),
        forall|f: u8| #[trigger] slot_df(slots.push(s), t, f) == slot_df(slots, t, f) + if s.1 == f && occurrences(s.2, t) > 0 {
            1nat
        } else {
            0nat
        },
        slots_contain(slots.push(s), t) <==> (slots_contain(slots, t) || s.2.contains(t)),
{
    assert(slots.push(s).drop_last() =~= slots);
    if slots_contain(slots.push(s), t) {
        let k = choose|k: int| 0 <= k < slots.push(s).len() && #[trigger] slots.push(s)[k].2.contains(t);
        if k < slots.len() {
            assert(slots[k] == slots.push(s)[k]);
        }
    }
    if slots_contain(slots, t) {
        let k = choose|k: int| 0 <= k < slots.len() && #[trigger] slots[k].2.contains(t);
        assert(slots.push(s)[k] == slots[k]);
    }
    if s.2.contains(t) {
        assert(slots.push(s)[slots.len() as int] == s);
    }
}

proof fn lemma_absent_term(slots: Seq<(u32, u8, Seq<Seq<char>>)>, t: Seq<char>)
    requires
        !slots_contain(slots, t),
    ensures
        slot_postings(slots, t) == Seq::<(u32, u8, u32)>::empty(),
        forall|f: u8| #[trigger] slot_df(slots, t, f) == 0,
    decreases slots.len(),
{
    if slots.len() > 0 {
        let last = slots.last();
        assert(slots.drop_last().push(last) =~= slots);
        lemma_slot_step(slots.drop_last(), last, t);
        lemma_absent_term(slots.drop_last(), t);
        assert(!last.2.contains(t));
        lemma_occurrences_bound(last.2, t);
    }
}

/// Position of `term` in the entry list.
pub(crate) fn find_term(terms: &Vec<TermStats>, term: &String) -> (res: Option<usize>)
    ensures
        match res {
            Some(i) => i < terms.len() && terms@[i as int].term@ == term@,
            None => forall|a: int| 0 <= a < terms.len() ==> #[trigger] terms@[a].term@ != term@,
        },
{
    let mut i: usize = 0;
    while i < terms.len()
        invariant
            i <= terms.len(),
            forall|a: int| 0 <= a < i ==> #[trigger] terms@[a].term@ != term@,
        decreases terms.len() - i,
    {
        if terms[i].term == *term {
            return Some(i);
        }
        i = i + 1;
    }
    None
}

/// Some counted token before position `c` is `t`.
pub open spec fn seen(counted: Seq<(String, u32)>, c: int, t: Seq<char>) -> bool {
    exists|a: int| 0 <= a < c && #[trigger] counted[a].0@ == t
}

proof fn lemma_seen_step(counted: Seq<(String, u32)>, c: int, t: Seq<char>)
    requires
        0 <= c < counted.len(),
    ensures
        seen(counted, c + 1, t) == (seen(counted, c, t) || counted[c].0@ == t),
{
    if seen(counted, c + 1, t) {
        let a = choose|a: int| 0 <= a < c + 1 && #[trigger] counted[a].0@ == t;
    }
    if counted[c].0@ == t {
        assert(counted[c].0@ == t);
    }
}

/// Adds the postings and document frequencies of one tokenized field
/// (document `d`, field `f`) to the entry list.
fn add_slot(terms: &mut Vec<TermStats>, d: u32, f: u8, tokens: &Vec<String>)
    requires
        distinct_terms(old(terms)@),
        f < 3,
        tokens.len() <= u32::MAX,
        forall|i: int| 0 <= i < old(terms).len() ==> #[trigger] old(terms)@[i].field_df@[f as int] < u32::MAX,
    ensures
        distinct_terms(final(terms)@),
        old(terms).len() <= final(terms).len(),
        forall|i: int| 0 <= i < old(terms).len() ==> #[trigger] final(terms)@[i].term@ == old(terms)@[i].term@,
        forall|i: int| 0 <= i < old(terms).len() ==> #[trigger] final(terms)@[i].postings@
            == old(terms)@[i].postings@ + slot_posting((d, f, token_views(tokens@)), old(terms)@[i].term@),
        forall|i: int, k: int| 0 <= i < old(terms).len() && 0 <= k < 3 ==> #[trigger] final(terms)@[i].field_df@[k]
            == old(terms)@[i].field_df@[k] + if k == f && occurrences(token_views(tokens@), old(terms)@[i].term@) > 0 {
                1int
            } else {
                0int
            },
        forall|i: int| old(terms).len() <= i < final(terms).len() ==> {
            &&& !holds_term(old(terms)@, #[trigger] final(terms)@[i].term@)
            &&& token_views(tokens@).contains(final(terms)@[i].term@)
            &&& final(terms)@[i].postings@ == slot_posting((d, f, token_views(tokens@)), final(terms)@[i].term@)
        },
        forall|i: int, k: int| old(terms).len() <= i < final(terms).len() && 0 <= k < 3 ==> #[trigger] final(terms)@[i].field_df@[k]
            == if k == f {
                1int
            } else {
                0int
            },
        forall|t: Seq<char>| #[trigger] holds_term(final(terms)@, t) <==> (holds_term(old(terms)@, t) || token_views(tokens@).contains(t)),
{
    let ghost toks = token_views(tokens@);
    let ghost slot = (d, f, toks);
    let ghost start = terms@;
    let counted = count_tokens(tokens);
    let mut c: usize = 0;
    while c < counted.len()
        invariant
            c <= counted.len(),
            f < 3,
            toks == token_views(tokens@),
            slot == (d, f, toks),
            distinct_terms(terms@),
            start.len() <= terms.len(),
            forall|a: int, b: int| 0 <= a < b < counted.len() ==> #[trigger] counted@[a].0@ != #[trigger] counted@[b].0@,
            forall|a: int| 0 <= a < counted.len() ==> #[trigger] counted@[a].1 == occurrences(toks, counted@[a].0@),
            forall|a: int| 0 <= a < counted.len() ==> toks.contains(#[trigger] counted@[a].0@),
            forall|t: Seq<char>| #[trigger] toks.contains(t) ==> exists|a: int| 0 <= a < counted.len() && #[trigger] counted@[a].0@ == t,
            forall|i: int| 0 <= i < start.len() ==> #[trigger] start[i].field_df@[f as int] < u32::MAX,
            forall|i: int| 0 <= i < start.len() ==> #[trigger] terms@[i].term@ == start[i].term@,
            forall|i: int| 0 <= i < start.len() ==> #[trigger] terms@[i].postings@ == start[i].postings@
                + if seen(counted@, c as int, start[i].term@) { slot_posting(slot, start[i].term@) } else { Seq::empty() },
            forall|i: int, k: int| 0 <= i < start.len() && 0 <= k < 3 ==> #[trigger] terms@[i].field_df@[k]
                == start[i].field_df@[k] + if k == f && seen(counted@, c as int, start[i].term@) { 1int } else { 0int },
            forall|i: int| start.len() <= i < terms.len() ==> {
                &&& !holds_term(start, #[trigger] terms@[i].term@)
                &&& seen(counted@, c as int, terms@[i].term@)
                &&& terms@[i].postings@ == slot_posting(slot, terms@[i].term@)
            },
            forall|i: int, k: int| start.len() <= i < terms.len() && 0 <= k < 3 ==> #[trigger] terms@[i].field_df@[k]
                == if k == f { 1int } else { 0int },
            forall|t: Seq<char>| #[trigger] holds_term(terms@, t) <==> (holds_term(start, t) || seen(counted@, c as int, t)),
        decreases counted.len() - c,
    {
        let term = &counted[c].0;
        let tf = counted[c].1;
        let ghost before = terms@;
        proof {
            lemma_occurrences_bound(toks, term@);
            assert(toks.contains(term@));
            assert(slot_posting(slot, term@) == seq![(d, f, tf)]);
            assert forall|t: Seq<char>| seen(counted@, c + 1, t) == (seen(counted@, c as int, t) || counted@[c as int].0@ == t) by {
                lemma_seen_step(counted@, c as int, t);
            }
            assert(!seen(counted@, c as int, term@)) by {
                if seen(counted@, c as int, term@) {
                    let a = choose|a: int| 0 <= a < c && #[trigger] counted@[a].0@ == term@;
                    assert(counted@[a].0@ != counted@[c as int].0@);
                }
            }
        }
        match find_term(terms, term) {
            Some(i) => {
                proof {
                    assert(holds_term(before, term@));
                    assert((i as int) < start.len());
                    assert(before[i as int].term@ == start[i as int].term@);
                }
                let fi = f as usize;
                terms[i].postings.push((d, f, tf));
                terms[i].field_df[fi] = terms[i].field_df[fi] + 1;
                proof {
                    assert(terms@[i as int].postings@ =~= before[i as int].postings@ + seq![(d, f, tf)]);
                    assert forall|j: int| 0 <= j < terms.len() && j != i implies #[trigger] terms@[j] == before[j] by {}
                    assert forall|j: int| 0 <= j < start.len() implies #[trigger] terms@[j].postings@ == start[j].postings@
                        + if seen(counted@, c + 1, start[j].term@) { slot_posting(slot, start[j].term@) } else { Seq::empty() } by {
                        if j != i {
                            assert(terms@[j] == before[j]);
                            assert(before[j].term@ != before[i as int].term@);
                        }
                    }
                    assert forall|j: int, k: int| 0 <= j < start.len() && 0 <= k < 3 implies #[trigger] terms@[j].field_df@[k]
                        == start[j].field_df@[k] + if k == f && seen(counted@, c + 1, start[j].term@) { 1int } else { 0int } by {
                        if j != i {
                            assert(terms@[j] == before[j]);
                            assert(before[j].term@ != before[i as int].term@);
                        }
                    }
                    assert forall|j: int| start.len() <= j < terms.len() implies {
                        &&& !holds_term(start, #[trigger] terms@[j].term@)
                        &&& seen(counted@, c + 1, terms@[j].term@)
                        &&& terms@[j].postings@ == slot_posting(slot, terms@[j].term@)
                    } by {
                        assert(terms@[j] == before[j]);
                    }
                    assert forall|j: int, k: int| start.len() <= j < terms.len() && 0 <= k < 3 implies #[trigger] terms@[j].field_df@[k]
                        == if k == f { 1int } else { 0int } by {
                        assert(terms@[j] == before[j]);
                    }
                    assert forall|t: Seq<char>| #[trigger] holds_term(terms@, t) <==> (holds_term(start, t) || seen(counted@, c + 1, t)) by {
                        if holds_term(terms@, t) {
                            let j = choose|j: int| 0 <= j < terms.len() && #[trigger] terms@[j].term@ == t;
                            assert(before[j].term@ == t);
                            assert(holds_term(before, t));
                        }
                        if holds_term(before, t) {
                            let j = choose|j: int| 0 <= j < before.len() && #[trigger] before[j].term@ == t;
                            assert(terms@[j].term@ == t);
                        }
                        if counted@[c as int].0@ == t {
                            assert(terms@[i as int].term@ == t);
                        }
                    }
                }
            },
            None => {
                let mut df: [u32; 3] = [0, 0, 0];
                let fi = f as usize;
                df[fi] = 1;
                let mut postings: Vec<(u32, u8, u32)> = Vec::new();
                postings.push((d, f, tf));
                terms.push(TermStats { term: term.clone(), postings, field_df: df });
                proof {
                    let n = before.len() as int;
                    assert(!holds_term(before, term@)) by {
                        if holds_term(before, term@) {
                            let j = choose|j: int| 0 <= j < before.len() && #[trigger] before[j].term@ == term@;
                        }
                    }
                    assert(!holds_term(start, term@));
                    assert(terms@[n].term@ == term@);
                    assert(terms@[n].postings@ =~= seq![(d, f, tf)]);
                    assert forall|j: int| 0 <= j < n implies #[trigger] terms@[j] == before[j] by {}
                    assert(distinct_terms(terms@)) by {
                        assert forall|a: int, b: int| 0 <= a < b < terms.len() implies #[trigger] terms@[a].term@ != #[trigger] terms@[b].term@ by {
                            if b == n {
                                assert(before[a].term@ != term@);
                            } else {
                                assert(terms@[a] == before[a]);
                                assert(terms@[b] == before[b]);
                            }
                        }
                    }
                    assert forall|j: int| 0 <= j < start.len() implies #[trigger] terms@[j].postings@ == start[j].postings@
                        + if seen(counted@, c + 1, start[j].term@) { slot_posting(slot, start[j].term@) } else { Seq::empty() } by {
                        assert(terms@[j] == before[j]);
                        assert(holds_term(start, start[j].term@));
                    }
                    assert forall|j: int, k: int| 0 <= j < start.len() && 0 <= k < 3 implies #[trigger] terms@[j].field_df@[k]
                        == start[j].field_df@[k] + if k == f && seen(counted@, c + 1, start[j].term@) { 1int } else { 0int } by {
                        assert(terms@[j] == before[j]);
                        assert(holds_term(start, start[j].term@));
                    }
                    assert forall|j: int| start.len() <= j < terms.len() implies {
                        &&& !holds_term(start, #[trigger] terms@[j].term@)
                        &&& seen(counted@, c + 1, terms@[j].term@)
                        &&& terms@[j].postings@ == slot_posting(slot, terms@[j].term@)
                    } by {
                        if j < n {
                            assert(terms@[j] == before[j]);
                        }
                    }
                    assert forall|j: int, k: int| start.len() <= j < terms.len() && 0 <= k < 3 implies #[trigger] terms@[j].field_df@[k]
                        == if k == f { 1int } else { 0int } by {
                        if j < n {
                            assert(terms@[j] == before[j]);
                        }
                    }
                    assert forall|t: Seq<char>| #[trigger] holds_term(terms@, t) <==> (holds_term(start, t) || seen(counted@, c + 1, t)) by {
                        if holds_term(terms@, t) {
                            let j = choose|j: int| 0 <= j < terms.len() && #[trigger] terms@[j].term@ == t;
                            if j < n {
                                assert(before[j].term@ == t);
                                assert(holds_term(before, t));
                            }
                        }
                        if holds_term(before, t) {
                            let j = choose|j: int| 0 <= j < before.len() && #[trigger] before[j].term@ == t;
                            assert(terms@[j].term@ == t);
                        }
                        if counted@[c as int].0@ == t {
                            assert(terms@[n].term@ == t);
                        }
                    }
                }
            },
        }
        c = c + 1;
    }
    proof {
        assert forall|t: Seq<char>| seen(counted@, counted.len() as int, t) == toks.contains(t) by {
            if seen(counted@, counted.len() as int, t) {
                let a = choose|a: int| 0 <= a < counted.len() && #[trigger] counted@[a].0@ == t;
                assert(toks.contains(counted@[a].0@));
            }
            if toks.contains(t) {
                let a = choose|a: int| 0 <= a < counted.len() && #[trigger] counted@[a].0@ == t;
            }
        }
        assert forall|i: int| 0 <= i < start.len() implies #[trigger] terms@[i].postings@
            == start[i].postings@ + slot_posting(slot, start[i].term@) by {
            lemma_occurrences_bound(toks, start[i].term@);
            if !seen(counted@, counted.len() as int, start[i].term@) {
                assert(terms@[i].postings@ =~= start[i].postings@ + slot_posting(slot, start[i].term@));
            }
        }
        assert forall|i: int, k: int| 0 <= i < start.len() && 0 <= k < 3 implies #[trigger] terms@[i].field_df@[k]
            == start[i].field_df@[k] + if k == f && occurrences(toks, start[i].term@) > 0 { 1int } else { 0int } by {
            lemma_occurrences_bound(toks, start[i].term@);
        }
    }
}

proof fn lemma_df_bound(docs: Seq<TokenizedDocument>, t: Seq<char>, f: u8)
    requires
        f < 3,
    ensures
        slot_df(document_slots(docs), t, f) <= docs.len(),
    decreases docs.len(),
{
    if docs.len() > 0 {
        let prev = document_slots(docs.drop_last());
        let d = (docs.len() - 1) as u32;
        let doc = docs.last();
        let s0 = (d, 0u8, token_views(doc.title@));
        let s1 = (d, 1u8, token_views(doc.keywords@));
        let s2 = (d, 2u8, token_views(doc.content@));
        assert(document_slots(docs) =~= prev.push(s0).push(s1).push(s2));
        lemma_slot_step(prev, s0, t);
        lemma_slot_step(prev.push(s0), s1, t);
        lemma_slot_step(prev.push(s0).push(s1), s2, t);
        lemma_df_bound(docs.drop_last(), t, f);
    }
}

proof fn lemma_prefix_counts(docs: Seq<TokenizedDocument>, i: int, j: int, f: int)
    requires
        0 <= i <= j <= docs.len(),
    ensures
        total_tokens(docs.take(i), f) <= total_tokens(docs.take(j), f),
        nonempty_docs(docs.take(i), f) <= i,
    decreases j,
{
    if i < j {
        assert(docs.take(j).drop_last() =~= docs.take(j - 1));
        lemma_prefix_counts(docs, i, j - 1, f);
    } else if i > 0 {
        assert(docs.take(i).drop_last() =~= docs.take(i - 1));
        lemma_prefix_counts(docs, i - 1, i - 1, f);
    }
}

/// Extends a description of a slot sequence by one slot, given what
/// `add_slot` reports.
proof fn lemma_extend_description(
    before: Seq<TermStats>,
    after: Seq<TermStats>,
    slots: Seq<(u32, u8, Seq<Seq<char>>)>,
    s: (u32, u8, Seq<Seq<char>>),
)
    requires
        describes_slots(before, slots),
        distinct_terms(after),
        before.len() <= after.len(),
        forall|i: int| 0 <= i < before.len() ==> #[trigger] after[i].term@ == before[i].term@,
        forall|i: int| 0 <= i < before.len() ==> #[trigger] after[i].postings@ == before[i].postings@ + slot_posting(s, before[i].term@),
        forall|i: int, k: int| 0 <= i < before.len() && 0 <= k < 3 ==> #[trigger] after[i].field_df@[k]
            == before[i].field_df@[k] + if k == s.1 && occurrences(s.2, before[i].term@) > 0 { 1int } else { 0int },
        forall|i: int| before.len() <= i < after.len() ==> {
            &&& !holds_term(before, #[trigger] after[i].term@)
            &&& s.2.contains(after[i].term@)
            &&& after[i].postings@ == slot_posting(s, after[i].term@)
        },
        forall|i: int, k: int| before.len() <= i < after.len() && 0 <= k < 3 ==> #[trigger] after[i].field_df@[k]
            == if k == s.1 { 1int } else { 0int },
        forall|t: Seq<char>| #[trigger] holds_term(after, t) <==> (holds_term(before, t) || s.2.contains(t)),
    ensures
        describes_slots(after, slots.push(s)),
{
    let next = slots.push(s);
    assert forall|i: int| 0 <= i < after.len() implies #[trigger] after[i].postings@ == slot_postings(next, after[i].term@) by {
        lemma_slot_step(slots, s, after[i].term@);
        if i >= before.len() {
            lemma_absent_term(slots, after[i].term@);
            assert(after[i].postings@ =~= slot_postings(next, after[i].term@));
        }
    }
    assert forall|i: int, k: int| 0 <= i < after.len() && 0 <= k < 3 implies #[trigger] after[i].field_df@[k] == slot_df(next, after[i].term@, k as u8) by {
        lemma_slot_step(slots, s, after[i].term@);
        assert(slot_df(next, after[i].term@, k as u8) == slot_df(slots, after[i].term@, k as u8) + if s.1 == k as u8 && occurrences(s.2, after[i].term@) > 0 { 1nat } else { 0nat });
        lemma_occurrences_bound(s.2, after[i].term@);
        if i >= before.len() {
            lemma_absent_term(slots, after[i].term@);
        }
    }
    assert forall|t: Seq<char>| #[trigger] holds_term(after, t) <==> slots_contain(next, t) by {
        lemma_slot_step(slots, s, t);
    }
}

/// Sum of field `f` over per-document lengths.
pub open spec fn length_sum(lens: Seq<[u32; 3]>, f: int) -> nat
    decreases lens.len(),
{
    if lens.len() == 0 {
        0
    } else {
        length_sum(lens.drop_last(), f) + lens.last()@[f] as nat
    }
}

/// Number of documents whose field `f` is non-empty.
pub open spec fn nonzero_count(lens: Seq<[u32; 3]>, f: int) -> nat
    decreases lens.len(),
{
    if lens.len() == 0 {
        0
    } else {
        nonzero_count(lens.drop_last(), f) + if lens.last()@[f] > 0 { 1nat } else { 0nat }
    }
}

/// Number of postings in field `f`.
pub open spec fn field_postings(ps: Seq<(u32, u8, u32)>, f: u8) -> nat
    decreases ps.len(),
{
    if ps.len() == 0 {
        0
    } else {
        field_postings(ps.drop_last(), f) + if ps.last().1 == f { 1nat } else { 0nat }
    }
}

proof fn lemma_length_sums(lens: Seq<[u32; 3]>, docs: Seq<TokenizedDocument>, f: int)
    requires
        lens.len() == docs.len(),
        0 <= f < 3,
        forall|d: int| 0 <= d < docs.len() ==> (#[trigger] lens[d])@[f] == field_tokens(docs[d], f).len(),
    ensures
        length_sum(lens, f) == total_tokens(docs, f),
        nonzero_count(lens, f) == nonempty_docs(docs, f),
    decreases docs.len(),
{
    if docs.len() > 0 {
        let n = docs.len() - 1;
        assert(lens[n] == lens.last());
        assert forall|d: int| 0 <= d < docs.drop_last().len() implies (#[trigger] lens.drop_last()[d])@[f] == field_tokens(docs.drop_last()[d], f).len() by {
            assert(lens.drop_last()[d] == lens[d]);
            assert(docs.drop_last()[d] == docs[d]);
        }
        lemma_length_sums(lens.drop_last(), docs.drop_last(), f);
    }
}

proof fn lemma_field_postings_concat(a: Seq<(u32, u8, u32)>, b: Seq<(u32, u8, u32)>, f: u8)
    ensures
        field_postings(a + b, f) == field_postings(a, f) + field_postings(b, f),
    decreases b.len(),
{
    if b.len() > 0 {
        assert((a + b).drop_last() =~= a + b.drop_last());
        lemma_field_postings_concat(a, b.drop_last(), f);
    } else {
        assert(a + b =~= a);
    }
}

proof fn lemma_df_is_field_postings(slots: Seq<(u32, u8, Seq<Seq<char>>)>, t: Seq<char>, f: u8)
    ensures
        slot_df(slots, t, f) == field_postings(slot_postings(slots, t), f),
    decreases slots.len(),
{
    if slots.len() > 0 {
        lemma_df_is_field_postings(slots.drop_last(), t, f);
        lemma_field_postings_concat(slot_postings(slots.drop_last(), t), slot_posting(slots.last(), t), f);
        let sp = slot_posting(slots.last(), t);
        if sp.len() > 0 {
            assert(sp.drop_last() =~= Seq::<(u32, u8, u32)>::empty());
            assert(sp.last().1 == slots.last().1);
            assert(field_postings(sp, f) == field_postings(sp.drop_last(), f) + if sp.last().1 == f { 1nat } else { 0nat });
        } else {
            assert(field_postings(sp, f) == 0);
        }
    }
}

/// Every slot holds at most `u32::MAX` tokens.
pub open spec fn slots_fit(slots: Seq<(u32, u8, Seq<Seq<char>>)>) -> bool {
    forall|k: int| 0 <= k < slots.len() ==> (#[trigger] slots[k]).2.len() <= u32::MAX
}

proof fn lemma_postings_positive(slots: Seq<(u32, u8, Seq<Seq<char>>)>, t: Seq<char>)
    requires
        slots_fit(slots),
    ensures
        forall|p: int| 0 <= p < slot_postings(slots, t).len() ==> (#[trigger] slot_postings(slots, t)[p]).2 >= 1,
    decreases slots.len(),
{
    if slots.len() > 0 {
        assert forall|k: int| 0 <= k < slots.drop_last().len() implies (#[trigger] slots.drop_last()[k]).2.len() <= u32::MAX by {
            assert(slots.drop_last()[k] == slots[k]);
        }
        lemma_postings_positive(slots.drop_last(), t);
        let last = slots.last();
        assert(slots[slots.len() - 1] == last);
        lemma_occurrences_bound(last.2, t);
        let prev = slot_postings(slots.drop_last(), t);
        let sp = slot_posting(last, t);
        assert forall|p: int| 0 <= p < slot_postings(slots, t).len() implies (#[trigger] slot_postings(slots, t)[p]).2 >= 1 by {
            if p < prev.len() {
                assert(slot_postings(slots, t)[p] == prev[p]);
            } else {
                assert(slot_postings(slots, t)[p] == sp[p - prev.len()]);
            }
        }
    }
}

proof fn lemma_document_slots_fit(docs: Seq<TokenizedDocument>)
    requires
        forall|d: int, f: int| 0 <= d < docs.len() && 0 <= f < 3 ==> #[trigger] field_tokens(docs[d], f).len() <= u32::MAX,
    ensures
        slots_fit(document_slots(docs)),
    decreases docs.len(),
{
    if docs.len() > 0 {
        assert forall|d: int, f: int| 0 <= d < docs.drop_last().len() && 0 <= f < 3 implies #[trigger] field_tokens(docs.drop_last()[d], f).len() <= u32::MAX by {
            assert(docs.drop_last()[d] == docs[d]);
        }
        lemma_document_slots_fit(docs.drop_last());
        let n = docs.len() - 1;
        assert(field_tokens(docs[n], 0).len() <= u32::MAX);
        assert(field_tokens(docs[n], 1).len() <= u32::MAX);
        assert(field_tokens(docs[n], 2).len() <= u32::MAX);
        let prev = document_slots(docs.drop_last());
        let all = document_slots(docs);
        assert forall|k: int| 0 <= k < all.len() implies (#[trigger] all[k]).2.len() <= u32::MAX by {
            if k < prev.len() {
                assert(all[k] == prev[k]);
            }
        }
    }
}

/// Position of a (document, field) pair in document-then-field order.
pub open spec fn posting_key(p: (u32, u8, u32)) -> int {
    p.0 as int * 3 + p.1 as int
}

/// Slot `k` is the slot of document `k / 3`, field `k % 3`.
pub open spec fn slots_keyed(slots: Seq<(u32, u8, Seq<Seq<char>>)>) -> bool {
    forall|k: int| 0 <= k < slots.len() ==> (#[trigger] slots[k]).0 as int * 3 + slots[k].1 as int == k
}

proof fn lemma_document_slots_keyed(docs: Seq<TokenizedDocument>)
    requires
        docs.len() <= u32::MAX,
    ensures
        slots_keyed(document_slots(docs)),
        document_slots(docs).len() == 3 * docs.len(),
        forall|k: int| 0 <= k < document_slots(docs).len() ==> (#[trigger] document_slots(docs)[k]).1 < 3,
        forall|d: int, f: int| 0 <= d < docs.len() && 0 <= f < 3
            ==> #[trigger] document_slots(docs)[3 * d + f].2 == token_views(field_tokens(docs[d], f)),
    decreases docs.len(),
{
    if docs.len() > 0 {
        lemma_document_slots_keyed(docs.drop_last());
        let prev = document_slots(docs.drop_last());
        let all = document_slots(docs);
        assert forall|k: int| 0 <= k < all.len() implies (#[trigger] all[k]).0 as int * 3 + all[k].1 as int == k && all[k].1 < 3 by {
            if k < prev.len() {
                assert(all[k] == prev[k]);
            }
        }
        assert forall|d: int, f: int| 0 <= d < docs.len() && 0 <= f < 3
            implies #[trigger] all[3 * d + f].2 == token_views(field_tokens(docs[d], f)) by {
            if d < docs.len() - 1 {
                assert(all[3 * d + f] == prev[3 * d + f]);
                assert(docs.drop_last()[d] == docs[d]);
            } else {
                assert(docs.last() == docs[d]);
            }
        }
    }
}

proof fn lemma_postings_ordered(slots: Seq<(u32, u8, Seq<Seq<char>>)>, t: Seq<char>)
    requires
        slots_keyed(slots),
    ensures
        forall|p: int| 0 <= p < slot_postings(slots, t).len() ==> posting_key(#[trigger] slot_postings(slots, t)[p]) < slots.len(),
        forall|p: int, q: int| 0 <= p < q < slot_postings(slots, t).len()
            ==> posting_key(#[trigger] slot_postings(slots, t)[p]) < posting_key(#[trigger] slot_postings(slots, t)[q]),
    decreases slots.len(),
{
    if slots.len() > 0 {
        let n = slots.len() - 1;
        assert forall|k: int| 0 <= k < slots.drop_last().len() implies (#[trigger] slots.drop_last()[k]).0 as int * 3 + slots.drop_last()[k].1 as int == k by {
            assert(slots.drop_last()[k] == slots[k]);
        }
        lemma_postings_ordered(slots.drop_last(), t);
        let prev = slot_postings(slots.drop_last(), t);
        let all = slot_postings(slots, t);
        let sp = slot_posting(slots.last(), t);
        assert(slots[n] == slots.last());
        assert forall|p: int| 0 <= p < all.len() implies posting_key(#[trigger] all[p]) < slots.len() by {
            if p < prev.len() {
                assert(all[p] == prev[p]);
            } else {
                assert(all[p] == sp[p - prev.len()]);
            }
        }
        assert forall|p: int, q: int| 0 <= p < q < all.len() implies posting_key(#[trigger] all[p]) < posting_key(#[trigger] all[q]) by {
            if q < prev.len() {
                assert(all[p] == prev[p]);
                assert(all[q] == prev[q]);
            } else {
                assert(all[q] == sp[q - prev.len()]);
                assert(all[p] == prev[p]);
            }
        }
    }
}

/// Frequency of a (document, field) pair in a posting list (the sum over
/// its postings for that pair).
pub open spec fn posting_tf(ps: Seq<(u32, u8, u32)>, d: u32, f: u8) -> nat
    decreases ps.len(),
{
    if ps.len() == 0 {
        0
    } else {
        posting_tf(ps.drop_last(), d, f) + if ps.last().0 == d && ps.last().1 == f { ps.last().2 as nat } else { 0nat }
    }
}

/// Frequencies of a (document, field) pair summed over every term.
pub open spec fn tf_total(terms: Seq<TermStats>, d: u32, f: u8) -> nat
    decreases terms.len(),
{
    if terms.len() == 0 {
        0
    } else {
        tf_total(terms.drop_last(), d, f) + posting_tf(terms.last().postings@, d, f)
    }
}

proof fn lemma_posting_tf_concat(a: Seq<(u32, u8, u32)>, b: Seq<(u32, u8, u32)>, d: u32, f: u8)
    ensures
        posting_tf(a + b, d, f) == posting_tf(a, d, f) + posting_tf(b, d, f),
    decreases b.len(),
{
    if b.len() > 0 {
        assert((a + b).drop_last() =~= a + b.drop_last());
        lemma_posting_tf_concat(a, b.drop_last(), d, f);
    } else {
        assert(a + b =~= a);
    }
}

/// The frequency of (d, f) in a term's postings is the term's number of
/// occurrences in slot `3 * d + f`.
proof fn lemma_posting_tf_slot(slots: Seq<(u32, u8, Seq<Seq<char>>)>, t: Seq<char>, d: u32, f: u8)
    requires
        slots_keyed(slots),
        slots_fit(slots),
        forall|k: int| 0 <= k < slots.len() ==> (#[trigger] slots[k]).1 < 3,
        f < 3,
    ensures
        posting_tf(slot_postings(slots, t), d, f) == if 3 * d + f < slots.len() {
            occurrences(slots[3 * d + f].2, t)
        } else {
            0
        },
    decreases slots.len(),
{
    if slots.len() > 0 {
        let n = slots.len() - 1;
        assert forall|k: int| 0 <= k < slots.drop_last().len() implies (#[trigger] slots.drop_last()[k]).0 as int * 3 + slots.drop_last()[k].1 as int == k by {
            assert(slots.drop_last()[k] == slots[k]);
        }
        assert forall|k: int| 0 <= k < slots.drop_last().len() implies (#[trigger] slots.drop_last()[k]).2.len() <= u32::MAX by {
            assert(slots.drop_last()[k] == slots[k]);
        }
        assert forall|k: int| 0 <= k < slots.drop_last().len() implies (#[trigger] slots.drop_last()[k]).1 < 3 by {
            assert(slots.drop_last()[k] == slots[k]);
        }
        lemma_posting_tf_slot(slots.drop_last(), t, d, f);
        lemma_posting_tf_concat(slot_postings(slots.drop_last(), t), slot_posting(slots.last(), t), d, f);
        let last = slots.last();
        assert(slots[n] == last);
        assert(last.0 as int * 3 + last.1 as int == n);
        lemma_occurrences_bound(last.2, t);
        let sp = slot_posting(last, t);
        if sp.len() > 0 {
            assert(sp.drop_last() =~= Seq::<(u32, u8, u32)>::empty());
            assert(posting_tf(sp, d, f) == posting_tf(sp.drop_last(), d, f) + if sp.last().0 == d && sp.last().1 == f { sp.last().2 as nat } else { 0nat });
        } else {
            assert(posting_tf(sp, d, f) == 0);
        }
        if 3 * d + f < n {
            assert(slots.drop_last()[3 * d + f] == slots[3 * d + f]);
        }
    }
}

/// Occurrences in `tokens` of each of `terms`, summed.
pub open spec fn occurrence_sum(terms: Seq<Seq<char>>, tokens: Seq<Seq<char>>) -> nat
    decreases terms.len(),
{
    if terms.len() == 0 {
        0
    } else {
        occurrence_sum(terms.drop_last(), tokens) + occurrences(tokens, terms.last())
    }
}

/// How many of `terms` equal `x`.
pub open spec fn count_equal(terms: Seq<Seq<char>>, x: Seq<char>) -> nat
    decreases terms.len(),
{
    if terms.len() == 0 {
        0
    } else {
        count_equal(terms.drop_last(), x) + if terms.last() == x { 1nat } else { 0nat }
    }
}

proof fn lemma_occurrence_sum_push(terms: Seq<Seq<char>>, tokens: Seq<Seq<char>>, x: Seq<char>)
    ensures
        occurrence_sum(terms, tokens.push(x)) == occurrence_sum(terms, tokens) + count_equal(terms, x),
    decreases terms.len(),
{
    if terms.len() > 0 {
        lemma_occurrence_sum_push(terms.drop_last(), tokens, x);
        assert(tokens.push(x).drop_last() =~= tokens);
    }
}

proof fn lemma_count_distinct(terms: Seq<Seq<char>>, x: Seq<char>)
    requires
        forall|i: int, j: int| 0 <= i < j < terms.len() ==> terms[i] != terms[j],
        terms.contains(x),
    ensures
        count_equal(terms, x) == 1,
    decreases terms.len(),
{
    let n = terms.len() - 1;
    if terms.last() == x {
        assert forall|i: int| 0 <= i < n implies terms.drop_last()[i] != x by {
            assert(terms.drop_last()[i] == terms[i]);
            assert(terms[i] != terms[n]);
        }
        lemma_count_absent(terms.drop_last(), x);
    } else {
        let k = choose|k: int| 0 <= k < terms.len() && terms[k] == x;
        assert(k < n);
        assert(terms.drop_last()[k] == x);
        assert forall|i: int, j: int| 0 <= i < j < terms.drop_last().len() implies terms.drop_last()[i] != terms.drop_last()[j] by {
            assert(terms.drop_last()[i] == terms[i]);
            assert(terms.drop_last()[j] == terms[j]);
        }
        lemma_count_distinct(terms.drop_last(), x);
    }
}

proof fn lemma_count_absent(terms: Seq<Seq<char>>, x: Seq<char>)
    requires
        forall|i: int| 0 <= i < terms.len() ==> terms[i] != x,
    ensures
        count_equal(terms, x) == 0,
    decreases terms.len(),
{
    if terms.len() > 0 {
        assert forall|i: int| 0 <= i < terms.drop_last().len() implies terms.drop_last()[i] != x by {
            assert(terms.drop_last()[i] == terms[i]);
        }
        lemma_count_absent(terms.drop_last(), x);
        assert(terms[terms.len() - 1] == terms.last());
    }
}

/// Distinct terms that include every token occur, together, as often as
/// there are tokens.
proof fn lemma_occurrence_sum_total(terms: Seq<Seq<char>>, tokens: Seq<Seq<char>>)
    requires
        forall|i: int, j: int| 0 <= i < j < terms.len() ==> terms[i] != terms[j],
        forall|k: int| 0 <= k < tokens.len() ==> terms.contains(#[trigger] tokens[k]),
    ensures
        occurrence_sum(terms, tokens) == tokens.len(),
    decreases tokens.len(),
{
    if tokens.len() == 0 {
        lemma_occurrence_sum_empty(terms, tokens);
    } else {
        let prev = tokens.drop_last();
        assert forall|k: int| 0 <= k < prev.len() implies terms.contains(#[trigger] prev[k]) by {
            assert(prev[k] == tokens[k]);
        }
        lemma_occurrence_sum_total(terms, prev);
        assert(prev.push(tokens.last()) =~= tokens);
        lemma_occurrence_sum_push(terms, prev, tokens.last());
        assert(tokens[tokens.len() - 1] == tokens.last());
        lemma_count_distinct(terms, tokens.last());
    }
}

proof fn lemma_occurrence_sum_empty(terms: Seq<Seq<char>>, tokens: Seq<Seq<char>>)
    requires
        tokens.len() == 0,
    ensures
        occurrence_sum(terms, tokens) == 0,
    decreases terms.len(),
{
    if terms.len() > 0 {
        lemma_occurrence_sum_empty(terms.drop_last(), tokens);
    }
}

/// `tf_total` over term entries is the occurrence sum of their terms in the
/// slot of (d, f).
proof fn lemma_tf_total(terms: Seq<TermStats>, slots: Seq<(u32, u8, Seq<Seq<char>>)>, d: u32, f: u8)
    requires
        slots_keyed(slots),
        slots_fit(slots),
        forall|k: int| 0 <= k < slots.len() ==> (#[trigger] slots[k]).1 < 3,
        f < 3,
        3 * d + f < slots.len(),
        forall|i: int| 0 <= i < terms.len() ==> #[trigger] terms[i].postings@ == slot_postings(slots, terms[i].term@),
    ensures
        tf_total(terms, d, f) == occurrence_sum(terms.map_values(|ts: TermStats| ts.term@), slots[3 * d + f].2),
    decreases terms.len(),
{
    if terms.len() > 0 {
        let n = terms.len() - 1;
        assert forall|i: int| 0 <= i < terms.drop_last().len() implies #[trigger] terms.drop_last()[i].postings@ == slot_postings(slots, terms.drop_last()[i].term@) by {
            assert(terms.drop_last()[i] == terms[i]);
        }
        lemma_tf_total(terms.drop_last(), slots, d, f);
        assert(terms.map_values(|ts: TermStats| ts.term@).drop_last() =~= terms.drop_last().map_values(|ts: TermStats| ts.term@));
        assert(terms[n] == terms.last());
        lemma_posting_tf_slot(slots, terms.last().term@, d, f);
    }
}

/// Builds the term index of a tokenized document list.
///
/// Each field (title, keywords, content) is counted independently: term
/// frequencies per (doc, field), per-field document frequencies, per-doc
/// field lengths, the number of documents with a non-empty field and the
/// total token count per field.
pub fn build_term_index(documents: &[TokenizedDocument]) -> (index: InMemoryTermIndex)
    requires
        documents.len() <= u32::MAX,
        forall|d: int, f: int| 0 <= d < documents.len() && 0 <= f < 3 ==> #[trigger] field_tokens(documents@[d], f).len() <= u32::MAX,
        forall|f: int| 0 <= f < 3 ==> #[trigger] total_tokens(documents@, f) <= u64::MAX,
    ensures
        index.n_docs == documents.len(),
        index.wf(),
        describes_slots(index.terms@, document_slots(documents@)),
        index.doc_lengths.len() == documents.len(),
        forall|d: int, f: int| 0 <= d < documents.len() && 0 <= f < 3 ==> #[trigger] index.doc_lengths@[d]@[f] == field_tokens(documents@[d], f).len(),
        forall|f: int| 0 <= f < 3 ==> #[trigger] index.field_doc_count@[f] == nonempty_docs(documents@, f),
        forall|f: int| 0 <= f < 3 ==> #[trigger] index.field_total_tokens@[f] == total_tokens(documents@, f),
        forall|f: int| 0 <= f < 3 ==> #[trigger] index.field_total_tokens@[f] == length_sum(index.doc_lengths@, f),
        forall|f: int| 0 <= f < 3 ==> #[trigger] index.field_doc_count@[f] == nonzero_count(index.doc_lengths@, f),
        forall|i: int, f: int| 0 <= i < index.terms.len() && 0 <= f < 3
            ==> #[trigger] index.terms@[i].field_df@[f] == field_postings(index.terms@[i].postings@, f as u8),
        forall|i: int, p: int| 0 <= i < index.terms.len() && 0 <= p < index.terms@[i].postings.len()
            ==> (#[trigger] index.terms@[i].postings@[p]).2 >= 1,
        forall|i: int, p: int, q: int| 0 <= i < index.terms.len() && 0 <= p < q < index.terms@[i].postings.len()
            ==> posting_key(#[trigger] index.terms@[i].postings@[p]) < posting_key(#[trigger] index.terms@[i].postings@[q]),
        forall|d: int, f: int| 0 <= d < documents.len() && 0 <= f < 3
            ==> tf_total(index.terms@, d as u32, f as u8) == #[trigger] index.doc_lengths@[d]@[f],
{
    let ghost docs = documents@;
    let mut terms: Vec<TermStats> = Vec::new();
    let mut doc_lengths: Vec<[u32; 3]> = Vec::new();
    let mut field_doc_count: [u32; 3] = [0, 0, 0];
    let mut field_total_tokens: [u64; 3] = [0, 0, 0];
    proof {
        assert(document_slots(docs.take(0)) =~= Seq::empty());
        assert forall|t: Seq<char>| #[trigger] holds_term(terms@, t) <==> slots_contain(document_slots(docs.take(0)), t) by {}
    }
    for d in 0..documents.len()
        invariant
            docs == documents@,
            documents.len() <= u32::MAX,
            forall|d2: int, f: int| 0 <= d2 < documents.len() && 0 <= f < 3 ==> #[trigger] field_tokens(documents@[d2], f).len() <= u32::MAX,
            forall|f: int| 0 <= f < 3 ==> #[trigger] total_tokens(documents@, f) <= u64::MAX,
            describes_slots(terms@, document_slots(docs.take(d as int))),
            doc_lengths.len() == d,
            forall|d2: int, f: int| 0 <= d2 < d && 0 <= f < 3 ==> #[trigger] doc_lengths@[d2]@[f] == field_tokens(docs[d2], f).len(),
            forall|f: int| 0 <= f < 3 ==> #[trigger] field_doc_count@[f] == nonempty_docs(docs.take(d as int), f),
            forall|f: int| 0 <= f < 3 ==> #[trigger] field_total_tokens@[f] == total_tokens(docs.take(d as int), f),
    {
        let doc = &documents[d];
        let ghost base = document_slots(docs.take(d as int));
        let ghost s0 = (d as u32, 0u8, token_views(doc.title@));
        let ghost s1 = (d as u32, 1u8, token_views(doc.keywords@));
        let ghost s2 = (d as u32, 2u8, token_views(doc.content@));
        proof {
            assert(field_tokens(docs[d as int], 0).len() <= u32::MAX);
            assert(field_tokens(docs[d as int], 1).len() <= u32::MAX);
            assert(field_tokens(docs[d as int], 2).len() <= u32::MAX);
            assert forall|i: int| 0 <= i < terms.len() implies #[trigger] terms@[i].field_df@[0] < u32::MAX by {
                lemma_df_bound(docs.take(d as int), terms@[i].term@, 0u8);
            }
        }
        let ghost t0 = terms@;
        add_slot(&mut terms, d as u32, 0, &doc.title);
        proof {
            lemma_extend_description(t0, terms@, base, s0);
            assert forall|i: int| 0 <= i < terms.len() implies #[trigger] terms@[i].field_df@[1] < u32::MAX by {
                lemma_df_bound(docs.take(d as int), terms@[i].term@, 1u8);
                lemma_slot_step(base, s0, terms@[i].term@);
                assert(slot_df(base.push(s0), terms@[i].term@, 1u8) == slot_df(base, terms@[i].term@, 1u8));
            }
        }
        let ghost t1 = terms@;
        add_slot(&mut terms, d as u32, 1, &doc.keywords);
        proof {
            lemma_extend_description(t1, terms@, base.push(s0), s1);
            assert forall|i: int| 0 <= i < terms.len() implies #[trigger] terms@[i].field_df@[2] < u32::MAX by {
                lemma_df_bound(docs.take(d as int), terms@[i].term@, 2u8);
                lemma_slot_step(base, s0, terms@[i].term@);
                lemma_slot_step(base.push(s0), s1, terms@[i].term@);
                assert(slot_df(base.push(s0).push(s1), terms@[i].term@, 2u8) == slot_df(base, terms@[i].term@, 2u8));
            }
        }
        let ghost t2 = terms@;
        add_slot(&mut terms, d as u32, 2, &doc.content);
        proof {
            lemma_extend_description(t2, terms@, base.push(s0).push(s1), s2);
            assert(docs.take(d + 1).drop_last() =~= docs.take(d as int));
            assert(docs.take(d + 1).last() == docs[d as int]);
            assert(document_slots(docs.take(d + 1)) =~= base.push(s0).push(s1).push(s2));
        }
        let lens: [u32; 3] = [doc.title.len() as u32, doc.keywords.len() as u32, doc.content.len() as u32];
        doc_lengths.push(lens);
        proof {
            assert forall|f: int| 0 <= f < 3 implies nonempty_docs(docs.take(d + 1), f) == nonempty_docs(docs.take(d as int), f)
                + if field_tokens(docs[d as int], f).len() > 0 { 1nat } else { 0nat } && total_tokens(docs.take(d + 1), f)
                == total_tokens(docs.take(d as int), f) + field_tokens(docs[d as int], f).len() && nonempty_docs(docs.take(d as int), f) <= d
                && total_tokens(docs.take(d + 1), f) <= u64::MAX by {
                lemma_prefix_counts(docs, d as int, d as int, f);
                lemma_prefix_counts(docs, d + 1, docs.len() as int, f);
                assert(docs.take(docs.len() as int) =~= docs);
            }
        }
        if doc.title.len() > 0 {
            field_doc_count[0] = field_doc_count[0] + 1;
        }
        if doc.keywords.len() > 0 {
            field_doc_count[1] = field_doc_count[1] + 1;
        }
        if doc.content.len() > 0 {
            field_doc_count[2] = field_doc_count[2] + 1;
        }
        field_total_tokens[0] = field_total_tokens[0] + doc.title.len() as u64;
        field_total_tokens[1] = field_total_tokens[1] + doc.keywords.len() as u64;
        field_total_tokens[2] = field_total_tokens[2] + doc.content.len() as u64;
        proof {
            assert forall|d2: int, f: int| 0 <= d2 < d + 1 && 0 <= f < 3 implies #[trigger] doc_lengths@[d2]@[f] == field_tokens(docs[d2], f).len() by {
                if d2 == d as int {
                    assert(doc_lengths@[d2] == lens);
                }
            }
        }
    }
    proof {
        assert(docs.take(documents.len() as int) =~= docs);
    }
    let index = InMemoryTermIndex {
        terms,
        doc_lengths,
        field_doc_count,
        field_total_tokens,
        n_docs: documents.len() as u32,
    };
    proof {
        lemma_built_index_wf(docs, index);
        assert forall|f: int| 0 <= f < 3 implies #[trigger] index.field_total_tokens@[f] == length_sum(index.doc_lengths@, f) by {
            lemma_length_sums(index.doc_lengths@, docs, f);
        }
        assert forall|f: int| 0 <= f < 3 implies #[trigger] index.field_doc_count@[f] == nonzero_count(index.doc_lengths@, f) by {
            lemma_length_sums(index.doc_lengths@, docs, f);
        }
        let slots = document_slots(docs);
        lemma_document_slots_fit(docs);
        assert forall|i: int, f: int| 0 <= i < index.terms.len() && 0 <= f < 3
            implies #[trigger] index.terms@[i].field_df@[f] == field_postings(index.terms@[i].postings@, f as u8) by {
            lemma_df_is_field_postings(slots, index.terms@[i].term@, f as u8);
        }
        assert forall|i: int, p: int| 0 <= i < index.terms.len() && 0 <= p < index.terms@[i].postings.len()
            implies (#[trigger] index.terms@[i].postings@[p]).2 >= 1 by {
            lemma_postings_positive(slots, index.terms@[i].term@);
        }
        lemma_document_slots_keyed(docs);
        assert forall|i: int, p: int, q: int| 0 <= i < index.terms.len() && 0 <= p < q < index.terms@[i].postings.len()
            implies posting_key(#[trigger] index.terms@[i].postings@[p]) < posting_key(#[trigger] index.terms@[i].postings@[q]) by {
            lemma_postings_ordered(slots, index.terms@[i].term@);
        }
        assert forall|d: int, f: int| 0 <= d < documents.len() && 0 <= f < 3
            implies tf_total(index.terms@, d as u32, f as u8) == #[trigger] index.doc_lengths@[d]@[f] by {
            let k = 3 * d + f;
            assert(slots[k].2 == token_views(field_tokens(docs[d], f)));
            lemma_tf_total(index.terms@, slots, d as u32, f as u8);
            let names = index.terms@.map_values(|ts: TermStats| ts.term@);
            let toks = slots[k].2;
            assert forall|i: int, j: int| 0 <= i < j < names.len() implies names[i] != names[j] by {
                assert(names[i] == index.terms@[i].term@);
                assert(names[j] == index.terms@[j].term@);
            }
            assert forall|m: int| 0 <= m < toks.len() implies names.contains(#[trigger] toks[m]) by {
                assert(slots[k].2.contains(toks[m]));
                assert(slots_contain(slots, toks[m]));
                assert(holds_term(index.terms@, toks[m]));
                let i = choose|i: int| 0 <= i < index.terms.len() && #[trigger] index.terms@[i].term@ == toks[m];
                assert(names[i] == toks[m]);
            }
            lemma_occurrence_sum_total(names, toks);
        }
    }
    index
}

impl InMemoryTermIndex {
    /// Terms are distinct, every posting names an indexed document and a
    /// field, and there is one length row per document.
    pub open spec fn wf(&self) -> bool {
        &&& distinct_terms(self.terms@)
        &&& self.doc_lengths.len() == self.n_docs
        &&& forall|i: int, p: int| 0 <= i < self.terms.len() && 0 <= p < self.terms@[i].postings.len()
            ==> (#[trigger] self.terms@[i].postings@[p]).0 < self.n_docs && self.terms@[i].postings@[p].1 < 3
    }

    /// Position of a term's entry, if the term occurs in the corpus.
    pub fn term_position(&self, term: &String) -> (res: Option<usize>)
        ensures
            match res {
                Some(i) => i < self.terms.len() && self.terms@[i as int].term@ == term@,
                None => !holds_term(self.terms@, term@),
            },
    {
        find_term(&self.terms, term)
    }
}

proof fn lemma_slot_postings_range(slots: Seq<(u32, u8, Seq<Seq<char>>)>, t: Seq<char>, n: u32)
    requires
        forall|s: int| 0 <= s < slots.len() ==> (#[trigger] slots[s]).0 < n && slots[s].1 < 3,
    ensures
        forall|p: int| 0 <= p < slot_postings(slots, t).len() ==> (#[trigger] slot_postings(slots, t)[p]).0 < n
            && slot_postings(slots, t)[p].1 < 3,
    decreases slots.len(),
{
    if slots.len() > 0 {
        lemma_slot_postings_range(slots.drop_last(), t, n);
        let a = slot_postings(slots.drop_last(), t);
        let b = slot_posting(slots.last(), t);
        assert forall|p: int| 0 <= p < slot_postings(slots, t).len() implies (#[trigger] slot_postings(slots, t)[p]).0 < n
            && slot_postings(slots, t)[p].1 < 3 by {
            if p >= a.len() {
                assert(slot_postings(slots, t)[p] == b[p - a.len()]);
            } else {
                assert(slot_postings(slots, t)[p] == a[p]);
            }
        }
    }
}

proof fn lemma_document_slots_range(docs: Seq<TokenizedDocument>)
    requires
        docs.len() <= u32::MAX,
    ensures
        document_slots(docs).len() == 3 * docs.len(),
        forall|s: int| 0 <= s < document_slots(docs).len() ==> (#[trigger] document_slots(docs)[s]).0 < docs.len()
            && document_slots(docs)[s].1 < 3,
    decreases docs.len(),
{
    if docs.len() > 0 {
        lemma_document_slots_range(docs.drop_last());
        let prev = document_slots(docs.drop_last());
        assert forall|s: int| 0 <= s < document_slots(docs).len() implies (#[trigger] document_slots(docs)[s]).0 < docs.len()
            && document_slots(docs)[s].1 < 3 by {
            if s < prev.len() {
                assert(document_slots(docs)[s] == prev[s]);
            }
        }
    }
}

proof fn lemma_built_index_wf(documents: Seq<TokenizedDocument>, index: InMemoryTermIndex)
    requires
        documents.len() <= u32::MAX,
        index.n_docs == documents.len(),
        index.doc_lengths.len() == documents.len(),
        describes_slots(index.terms@, document_slots(documents)),
    ensures
        index.wf(),
{
    lemma_document_slots_range(documents);
    assert forall|i: int, p: int| 0 <= i < index.terms.len() && 0 <= p < index.terms@[i].postings.len()
        implies (#[trigger] index.terms@[i].postings@[p]).0 < index.n_docs && index.terms@[i].postings@[p].1 < 3 by {
        lemma_slot_postings_range(document_slots(documents), index.terms@[i].term@, index.n_docs);
    }
}

} // verus!
