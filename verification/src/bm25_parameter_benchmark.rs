//! BM25 parameter sweep: the parameter grid, its display names and the
//! markdown tables of the sweep report.

use vstd::prelude::*;
use crate::text::{chars_of, decimal_chars, push_char, push_str, push_usize, str_views, string_views};
use crate::ordered_groups::{group_by_key, group_seqs, groups_by_key, in_some_group, lemma_seq_lt_concat, lemma_seq_lt_cons, seq_lt, vec_views};

verus! {

/// Parameter set in hundredths (k1, b and the three field weights).
#[derive(Debug, Clone, Copy, PartialEq, Eq, Hash, PartialOrd, Ord, Structural)]
pub struct ParameterSetKey {
    pub k1_pct: u16,
    pub b_pct: u16,
    pub title_w_pct: u16,
    pub keywords_w_pct: u16,
    pub content_w_pct: u16,
}

/// A value in hundredths written with two decimals, e.g. 75 as `0.75`.
pub open spec fn two_decimals(pct: u16) -> Seq<char> {
    decimal_chars((pct / 100) as nat) + seq!['.'] + decimal_chars(((pct % 100) / 10) as nat) + decimal_chars((pct % 10) as nat)
}

/// Display name of a parameter set.
pub open spec fn display_name_spec(key: ParameterSetKey) -> Seq<char> {
    "k1_"@ + two_decimals(key.k1_pct) + "_b_"@ + two_decimals(key.b_pct) + "_t_"@ + two_decimals(key.title_w_pct) + "_kw_"@
        + two_decimals(key.keywords_w_pct) + "_c_"@ + two_decimals(key.content_w_pct)
}

fn push_two_decimals(s: &mut String, pct: u16)
    ensures
        final(s)@ == old(s)@ + two_decimals(pct),
{
    push_usize(s, (pct / 100) as usize);
    push_char(s, '.');
    push_usize(s, ((pct % 100) / 10) as usize);
    push_usize(s, (pct % 10) as usize);
    proof {
        assert(final(s)@ =~= old(s)@ + two_decimals(pct));
    }
}

impl ParameterSetKey {
    /// `k1_{k1}_b_{b}_t_{title}_kw_{keywords}_c_{content}`, each value with
    /// two decimals.
    pub fn display_name(&self) -> (res: String)
        ensures
            res@ == display_name_spec(*self),
    {
        let mut s = String::from_str("k1_");
        push_two_decimals(&mut s, self.k1_pct);
        push_str(&mut s, "_b_");
        push_two_decimals(&mut s, self.b_pct);
        push_str(&mut s, "_t_");
        push_two_decimals(&mut s, self.title_w_pct);
        push_str(&mut s, "_kw_");
        push_two_decimals(&mut s, self.keywords_w_pct);
        push_str(&mut s, "_c_");
        push_two_decimals(&mut s, self.content_w_pct);
        s
    }
}

/// When a parameter set was first introduced in the sweep.
#[derive(Debug, Clone, Copy, PartialEq, Eq, Structural)]
pub enum Phase {
    Algorithm,
    FieldWeights,
}

impl Phase {
    /// Name of the phase in reports.
    pub fn as_str(&self) -> (res: &'static str)
        ensures
            res@ == match self {
                Phase::Algorithm => "algorithm"@,
                Phase::FieldWeights => "field_weights"@,
            },
    {
        match self {
            Phase::Algorithm => "algorithm",
            Phase::FieldWeights => "field_weights",
        }
    }
}

fn key(k1_pct: u16, b_pct: u16, title_w_pct: u16, keywords_w_pct: u16, content_w_pct: u16) -> (res: ParameterSetKey)
    ensures
        res == (ParameterSetKey { k1_pct, b_pct, title_w_pct, keywords_w_pct, content_w_pct }),
{
    ParameterSetKey { k1_pct, b_pct, title_w_pct, keywords_w_pct, content_w_pct }
}

/// Stage one of the sweep: k1 in {1.2, 1.5, 1.8} (outer) by b in {0.4, 0.6,
/// 0.75}, with field weights title 4, keywords 2, content 1.
pub fn stage_one_parameter_sets() -> (res: Vec<ParameterSetKey>)
    ensures
        res@ == seq![
            key_spec(120, 40), key_spec(120, 60), key_spec(120, 75),
            key_spec(150, 40), key_spec(150, 60), key_spec(150, 75),
            key_spec(180, 40), key_spec(180, 60), key_spec(180, 75),
        ],
{
    let mut res: Vec<ParameterSetKey> = Vec::new();
    res.push(key(120, 40, 400, 200, 100));
    res.push(key(120, 60, 400, 200, 100));
    res.push(key(120, 75, 400, 200, 100));
    res.push(key(150, 40, 400, 200, 100));
    res.push(key(150, 60, 400, 200, 100));
    res.push(key(150, 75, 400, 200, 100));
    res.push(key(180, 40, 400, 200, 100));
    res.push(key(180, 60, 400, 200, 100));
    res.push(key(180, 75, 400, 200, 100));
    proof {
        assert(res@ =~= seq![
            key_spec(120, 40), key_spec(120, 60), key_spec(120, 75),
            key_spec(150, 40), key_spec(150, 60), key_spec(150, 75),
            key_spec(180, 40), key_spec(180, 60), key_spec(180, 75),
        ]);
    }
    res
}

/// A stage-one parameter set: the given k1 and b, weights 4 / 2 / 1.
pub open spec fn key_spec(k1_pct: u16, b_pct: u16) -> ParameterSetKey {
    ParameterSetKey { k1_pct, b_pct, title_w_pct: 400, keywords_w_pct: 200, content_w_pct: 100 }
}

/// Stage-two candidates of one finalist: title weight in {2, 4, 6} (outer)
/// by keywords weight in {1, 2, 4}, content weight 1.
pub open spec fn finalist_candidates(k1_pct: u16, b_pct: u16) -> Seq<ParameterSetKey> {
    Seq::new(9, |n: int| ParameterSetKey {
        k1_pct,
        b_pct,
        title_w_pct: if n / 3 == 0 { 200u16 } else if n / 3 == 1 { 400u16 } else { 600u16 },
        keywords_w_pct: if n % 3 == 0 { 100u16 } else if n % 3 == 1 { 200u16 } else { 400u16 },
        content_w_pct: 100,
    })
}

/// The candidates of the finalists, in order, without those already
/// evaluated.
pub open spec fn stage_two_spec(finalists: Seq<(u16, u16)>, evaluated: Seq<ParameterSetKey>) -> Seq<ParameterSetKey>
    decreases finalists.len(),
{
    if finalists.len() == 0 {
        Seq::empty()
    } else {
        stage_two_spec(finalists.drop_last(), evaluated) + finalist_candidates(finalists.last().0, finalists.last().1).filter(
            |k: ParameterSetKey| !evaluated.contains(k),
        )
    }
}

/// A stage-two parameter set of the finalists: a finalist's k1 and b, title
/// weight 2, 4 or 6, keywords weight 1, 2 or 4, content weight 1.
pub open spec fn stage_two_candidate(finalists: Seq<(u16, u16)>, k: ParameterSetKey) -> bool {
    &&& exists|f: int| 0 <= f < finalists.len() && #[trigger] finalists[f] == (k.k1_pct, k.b_pct)
    &&& (k.title_w_pct == 200 || k.title_w_pct == 400 || k.title_w_pct == 600)
    &&& (k.keywords_w_pct == 100 || k.keywords_w_pct == 200 || k.keywords_w_pct == 400)
    &&& k.content_w_pct == 100
}

proof fn lemma_finalist_candidates(k1_pct: u16, b_pct: u16, k: ParameterSetKey)
    ensures
        finalist_candidates(k1_pct, b_pct).contains(k) <==> (stage_two_candidate(seq![(k1_pct, b_pct)], k)),
{
    let c = finalist_candidates(k1_pct, b_pct);
    let one = seq![(k1_pct, b_pct)];
    if c.contains(k) {
        let n = choose|n: int| 0 <= n < c.len() && c[n] == k;
        assert(one[0] == (k.k1_pct, k.b_pct));
    }
    if stage_two_candidate(one, k) {
        let f = choose|f: int| 0 <= f < one.len() && #[trigger] one[f] == (k.k1_pct, k.b_pct);
        assert(f == 0);
        let ti: int = if k.title_w_pct == 200 { 0 } else if k.title_w_pct == 400 { 1 } else { 2 };
        let wi: int = if k.keywords_w_pct == 100 { 0 } else if k.keywords_w_pct == 200 { 1 } else { 2 };
        let n = 3 * ti + wi;
        assert(n / 3 == ti && n % 3 == wi);
        assert(c[n] == k);
    }
}

/// The stage-two parameter sets are the finalists' candidate sets that were
/// not evaluated yet: each listed set is such a candidate and not evaluated,
/// and each such candidate is listed.
pub proof fn lemma_stage_two_law(finalists: Seq<(u16, u16)>, evaluated: Seq<ParameterSetKey>)
    ensures
        forall|j: int| 0 <= j < stage_two_spec(finalists, evaluated).len() ==> {
            &&& stage_two_candidate(finalists, #[trigger] stage_two_spec(finalists, evaluated)[j])
            &&& !evaluated.contains(stage_two_spec(finalists, evaluated)[j])
        },
        forall|k: ParameterSetKey| #[trigger] stage_two_candidate(finalists, k) && !evaluated.contains(k)
            ==> stage_two_spec(finalists, evaluated).contains(k),
    decreases finalists.len(),
{
    broadcast use vstd::seq_lib::group_filter_ensures;
    if finalists.len() > 0 {
        let d = finalists.drop_last();
        let last = finalists.last();
        let n = finalists.len() as int;
        lemma_stage_two_law(d, evaluated);
        let p = stage_two_spec(d, evaluated);
        let pred = |k: ParameterSetKey| !evaluated.contains(k);
        let c = finalist_candidates(last.0, last.1);
        let q = c.filter(pred);
        let r = stage_two_spec(finalists, evaluated);
        assert(r == p + q);
        assert(finalists[n - 1] == last);
        assert forall|f: int| 0 <= f < n - 1 implies #[trigger] d[f] == finalists[f] by {}
        assert forall|j: int| 0 <= j < r.len() implies {
            &&& stage_two_candidate(finalists, #[trigger] r[j])
            &&& !evaluated.contains(r[j])
        } by {
            if j < p.len() {
                assert(r[j] == p[j]);
                assert(stage_two_candidate(d, p[j]));
                let f = choose|f: int| 0 <= f < d.len() && #[trigger] d[f] == (p[j].k1_pct, p[j].b_pct);
                assert(finalists[f] == d[f]);
            } else {
                let y = r[j];
                assert(y == q[j - p.len()]);
                assert(pred(q[j - p.len()]));
                assert(q.contains(y));
                c.lemma_filter_contains_rev(pred, y);
                lemma_finalist_candidates(last.0, last.1, y);
                assert(seq![(last.0, last.1)][0] == (y.k1_pct, y.b_pct));
                assert(finalists[n - 1] == (y.k1_pct, y.b_pct));
            }
        }
        assert forall|k: ParameterSetKey| #[trigger] stage_two_candidate(finalists, k) && !evaluated.contains(k)
            implies r.contains(k) by {
            let f = choose|f: int| 0 <= f < finalists.len() && #[trigger] finalists[f] == (k.k1_pct, k.b_pct);
            if f < n - 1 {
                assert(d[f] == finalists[f]);
                assert(stage_two_candidate(d, k));
                let t = choose|t: int| 0 <= t < p.len() && p[t] == k;
                assert(r[t] == p[t]);
            } else {
                assert(seq![(last.0, last.1)][0] == (k.k1_pct, k.b_pct));
                lemma_finalist_candidates(last.0, last.1, k);
                let m = choose|m: int| 0 <= m < c.len() && c[m] == k;
                c.lemma_filter_contains(pred, m);
                let t = choose|t: int| 0 <= t < q.len() && q[t] == k;
                assert(r[p.len() + t] == q[t]);
            }
        }
    }
}

fn contains_key(keys: &[ParameterSetKey], k: ParameterSetKey) -> (res: bool)
    ensures
        res == keys@.contains(k),
{
    for i in 0..keys.len()
        invariant
            forall|j: int| 0 <= j < i ==> keys@[j] != k,
    {
        if keys[i] == k {
            return true;
        }
    }
    false
}

/// Stage two of the sweep: for each finalist (k1, b), every title and
/// keywords weight combination not evaluated yet.
pub fn stage_two_parameter_sets(finalists: &[(u16, u16)], evaluated: &[ParameterSetKey]) -> (res: Vec<ParameterSetKey>)
    ensures
        res@ == stage_two_spec(finalists@, evaluated@),
{
    let titles: [u16; 3] = [200, 400, 600];
    let keywords: [u16; 3] = [100, 200, 400];
    let mut sets: Vec<ParameterSetKey> = Vec::new();
    for f in 0..finalists.len()
        invariant
            titles@ == seq![200u16, 400u16, 600u16],
            keywords@ == seq![100u16, 200u16, 400u16],
            sets@ == stage_two_spec(finalists@.take(f as int), evaluated@),
    {
        let (k1_pct, b_pct) = finalists[f];
        let ghost cands = finalist_candidates(k1_pct, b_pct);
        let ghost base = sets@;
        let mut n: usize = 0;
        for t in 0..3usize
            invariant
                titles@ == seq![200u16, 400u16, 600u16],
                keywords@ == seq![100u16, 200u16, 400u16],
                n == 3 * t,
                cands == finalist_candidates(k1_pct, b_pct),
                sets@ == base + cands.take(n as int).filter(|k: ParameterSetKey| !evaluated@.contains(k)),
        {
            for w in 0..3usize
                invariant
                    titles@ == seq![200u16, 400u16, 600u16],
                    keywords@ == seq![100u16, 200u16, 400u16],
                    t < 3,
                    n == 3 * t + w,
                    cands == finalist_candidates(k1_pct, b_pct),
                    sets@ == base + cands.take(n as int).filter(|k: ParameterSetKey| !evaluated@.contains(k)),
            {
                let k = key(k1_pct, b_pct, titles[t], keywords[w], 100);
                proof {
                    assert(cands[n as int] == k);
                    assert(cands.take(n + 1) =~= cands.take(n as int).push(k));
                }
                if !contains_key(evaluated, k) {
                    sets.push(k);
                }
                proof {
                    let pred = |x: ParameterSetKey| !evaluated@.contains(x);
                    assert(cands.take(n as int).push(k).filter(pred) == if pred(k) {
                        cands.take(n as int).filter(pred).push(k)
                    } else {
                        cands.take(n as int).filter(pred)
                    }) by {
                        reveal(Seq::filter);
                        assert(cands.take(n as int).push(k).drop_last() =~= cands.take(n as int));
                    }
                    assert(sets@ =~= base + cands.take(n + 1).filter(pred));
                }
                n = n + 1;
            }
        }
        proof {
            assert(cands.take(9) =~= cands);
            assert(finalists@.take(f + 1).drop_last() =~= finalists@.take(f as int));
            assert(finalists@.take(f + 1).last() == (k1_pct, b_pct));
        }
    }
    proof {
        assert(finalists@.take(finalists.len() as int) =~= finalists@);
    }
    sets
}

/// A markdown cell value: `|` escaped as `\|`, line breaks as spaces.
pub open spec fn markdown_cell_spec(value: Seq<char>) -> Seq<char>
    decreases value.len(),
{
    if value.len() == 0 {
        Seq::empty()
    } else {
        markdown_cell_spec(value.drop_last()) + if value.last() == '|' {
            seq!['\\', '|']
        } else if value.last() == '\n' {
            seq![' ']
        } else {
            seq![value.last()]
        }
    }
}

/// A markdown cell is made character by character: a `|` becomes `\|`, a
/// newline becomes a space, any other character stays; so the cell of a
/// concatenation is the concatenation of the cells.
pub proof fn lemma_markdown_cell_law(a: Seq<char>, b: Seq<char>, c: char)
    ensures
        markdown_cell_spec(a + b) == markdown_cell_spec(a) + markdown_cell_spec(b),
        markdown_cell_spec(seq![c]) == if c == '|' { seq!['\\', '|'] } else if c == '\n' { seq![' '] } else { seq![c] },
    decreases b.len(),
{
    assert(seq![c].drop_last() =~= Seq::<char>::empty());
    assert(markdown_cell_spec(Seq::<char>::empty()) =~= Seq::<char>::empty());
    if b.len() == 0 {
        assert(a + b =~= a);
        assert(markdown_cell_spec(a) + markdown_cell_spec(b) =~= markdown_cell_spec(a));
    } else {
        lemma_markdown_cell_law(a, b.drop_last(), c);
        assert((a + b).drop_last() =~= a + b.drop_last());
        assert((a + b).last() == b.last());
        assert(markdown_cell_spec(a + b) =~= markdown_cell_spec(a) + markdown_cell_spec(b));
    }
}

pub fn markdown_cell(value: &str) -> (res: String)
    ensures
        res@ == markdown_cell_spec(value@),
{
    let mut res = String::new();
    for c in it: value.chars()
        invariant
            it.seq() == value@,
            res@ == markdown_cell_spec(it.seq().take(it.index())),
    {
        proof {
            assert(it.seq().take(it.index() + 1).drop_last() =~= it.seq().take(it.index()));
        }
        if c == '|' {
            push_char(&mut res, '\\');
            push_char(&mut res, '|');
        } else if c == '\n' {
            push_char(&mut res, ' ');
        } else {
            push_char(&mut res, c);
        }
        proof {
            assert(res@ =~= markdown_cell_spec(it.seq().take(it.index() + 1)));
        }
    }
    proof {
        assert(value@.take(value@.len() as int) =~= value@);
    }
    res
}

/// `| v ` for every value, then `|` and a line break.
pub open spec fn cells_line(values: Seq<Seq<char>>) -> Seq<char>
    decreases values.len(),
{
    if values.len() == 0 {
        "|\n"@
    } else {
        "| "@ + values[0] + " "@ + cells_line(values.drop_first())
    }
}

/// `|---` for every header, then `|` and a line break.
pub open spec fn dash_line(n: nat) -> Seq<char>
    decreases n,
{
    if n == 0 {
        "|\n"@
    } else {
        "|---"@ + dash_line((n - 1) as nat)
    }
}

/// Rows of the sweep table.
pub open spec fn sweep_rows(rows: Seq<Seq<Seq<char>>>) -> Seq<char>
    decreases rows.len(),
{
    if rows.len() == 0 {
        Seq::empty()
    } else {
        cells_line(rows[0]) + sweep_rows(rows.drop_first())
    }
}

fn push_cells_line(out: &mut String, values: &[String])
    ensures
        final(out)@ == old(out)@ + cells_line(string_views(values@)),
{
    let ghost v = string_views(values@);
    let mut i: usize = 0;
    proof {
        assert(v.skip(0) =~= v);
    }
    while i < values.len()
        invariant
            i <= values.len(),
            v == string_views(values@),
            out@ + cells_line(v.skip(i as int)) == old(out)@ + cells_line(v),
        decreases values.len() - i,
    {
        proof {
            assert(v.skip(i as int)[0] == values@[i as int]@);
            assert(v.skip(i as int).drop_first() =~= v.skip(i + 1));
        }
        push_str(out, "| ");
        push_str(out, values[i].as_str());
        push_str(out, " ");
        i = i + 1;
    }
    proof {
        assert(v.skip(values.len() as int) =~= Seq::<Seq<char>>::empty());
    }
    push_str(out, "|\n");
}

/// The sweep report table: a header line, a `|---` line and one line per
/// row, each value as `| value `.
pub fn markdown_table(headers: &[&str], rows: &[Vec<String>]) -> (res: String)
    ensures
        res@ == cells_line(str_views(headers@)) + dash_line(headers.len() as nat) + sweep_rows(
            rows@.map_values(|r: Vec<String>| string_views(r@)),
        ),
{
    let mut out = String::new();
    let ghost hv = str_views(headers@);
    let mut i: usize = 0;
    proof {
        assert(hv.skip(0) =~= hv);
    }
    while i < headers.len()
        invariant
            i <= headers.len(),
            hv == str_views(headers@),
            out@ + cells_line(hv.skip(i as int)) == cells_line(hv),
        decreases headers.len() - i,
    {
        proof {
            assert(hv.skip(i as int)[0] == headers@[i as int]@);
            assert(hv.skip(i as int).drop_first() =~= hv.skip(i + 1));
        }
        push_str(&mut out, "| ");
        push_str(&mut out, headers[i]);
        push_str(&mut out, " ");
        i = i + 1;
    }
    proof {
        assert(hv.skip(headers.len() as int) =~= Seq::<Seq<char>>::empty());
    }
    push_str(&mut out, "|\n");
    let ghost head = out@;
    let mut k: usize = 0;
    while k < headers.len()
        invariant
            k <= headers.len(),
            out@ + dash_line((headers.len() - k) as nat) == head + dash_line(headers.len() as nat),
        decreases headers.len() - k,
    {
        push_str(&mut out, "|---");
        k = k + 1;
    }
    push_str(&mut out, "|\n");
    let ghost rv = rows@.map_values(|r: Vec<String>| string_views(r@));
    let ghost top = out@;
    let mut r: usize = 0;
    proof {
        assert(rv.skip(0) =~= rv);
    }
    while r < rows.len()
        invariant
            r <= rows.len(),
            rv == rows@.map_values(|r: Vec<String>| string_views(r@)),
            out@ + sweep_rows(rv.skip(r as int)) == top + sweep_rows(rv),
        decreases rows.len() - r,
    {
        proof {
            assert(rv.skip(r as int)[0] == string_views(rows@[r as int]@));
            assert(rv.skip(r as int).drop_first() =~= rv.skip(r + 1));
        }
        push_cells_line(&mut out, rows[r].as_slice());
        r = r + 1;
    }
    proof {
        assert(rv.skip(rows.len() as int) =~= Seq::<Seq<Seq<char>>>::empty());
    }
    out
}

// ---------------------------------------------------------------------
// Grouping observations for the aggregates.

/// A parameter set as the sequence of its fields, in declaration order: the
/// order of parameter sets is the lexicographic order of these sequences.
pub open spec fn parameter_key_seq(k: ParameterSetKey) -> Seq<u32> {
    seq![k.k1_pct as u32, k.b_pct as u32, k.title_w_pct as u32, k.keywords_w_pct as u32, k.content_w_pct as u32]
}

/// Character codes of a text: strings order as these sequences do.
pub open spec fn char_codes(t: Seq<char>) -> Seq<u32> {
    t.map_values(|c: char| c as u32)
}

pub open spec fn parameter_keys(keys: Seq<ParameterSetKey>) -> Seq<Seq<u32>> {
    keys.map_values(|k: ParameterSetKey| parameter_key_seq(k))
}

/// (parameter set, query type) pairs as sequences: the parameter set's
/// fields, then the query type's character codes.
pub open spec fn query_type_keys(keys: Seq<(ParameterSetKey, String)>) -> Seq<Seq<u32>> {
    keys.map_values(|k: (ParameterSetKey, String)| parameter_key_seq(k.0) + char_codes(k.1@))
}

fn parameter_key_vec(k: &ParameterSetKey) -> (res: Vec<u32>)
    ensures
        res@ == parameter_key_seq(*k),
{
    let mut v: Vec<u32> = Vec::new();
    v.push(k.k1_pct as u32);
    v.push(k.b_pct as u32);
    v.push(k.title_w_pct as u32);
    v.push(k.keywords_w_pct as u32);
    v.push(k.content_w_pct as u32);
    proof {
        assert(v@ =~= parameter_key_seq(*k));
    }
    v
}

/// Positions of the observations grouped by parameter set, the groups in
/// ascending parameter-set order: `keys[i]` is the parameter set of
/// observation `i`.
pub fn parameter_set_groups(keys: &[ParameterSetKey]) -> (res: Vec<Vec<usize>>)
    ensures
        groups_by_key(group_seqs(res@), parameter_keys(keys@)),
        forall|g: int, m: int| 0 <= g < res.len() && 0 <= m < res@[g].len()
            ==> (#[trigger] res@[g]@[m]) < keys.len() && keys@[res@[g]@[m] as int] == keys@[res@[g]@[0] as int],
        forall|g: int, h: int| 0 <= g < h < res.len()
            ==> parameter_set_lt(keys@[(#[trigger] res@[g])@[0] as int], keys@[(#[trigger] res@[h])@[0] as int]),
{
    let mut ks: Vec<Vec<u32>> = Vec::new();
    for i in 0..keys.len()
        invariant
            vec_views(ks@) == parameter_keys(keys@.take(i as int)),
    {
        let v = parameter_key_vec(&keys[i]);
        let ghost before = ks@;
        ks.push(v);
        proof {
            assert(vec_views(ks@) =~= vec_views(before).push(parameter_key_seq(keys@[i as int])));
            assert(parameter_keys(keys@.take(i + 1)) =~= parameter_keys(keys@.take(i as int)).push(parameter_key_seq(keys@[i as int])));
        }
    }
    proof {
        assert(keys@.take(keys.len() as int) =~= keys@);
    }
    let res = group_by_key(&ks);
    proof {
        let gs = group_seqs(res@);
        assert forall|g: int| 0 <= g < res.len() implies #[trigger] gs[g] == res@[g]@ by {}
        lemma_parameter_set_groups_law(keys@, gs);
        assert forall|g: int, m: int| 0 <= g < res.len() && 0 <= m < res@[g].len()
            implies (#[trigger] res@[g]@[m]) < keys.len() && keys@[res@[g]@[m] as int] == keys@[res@[g]@[0] as int] by {
            assert(gs[g][m] == res@[g]@[m]);
        }
        assert forall|g: int, h: int| 0 <= g < h < res.len()
            implies parameter_set_lt(keys@[(#[trigger] res@[g])@[0] as int], keys@[(#[trigger] res@[h])@[0] as int]) by {
            assert(gs[g] == res@[g]@ && gs[h] == res@[h]@);
        }
    }
    res
}

/// Positions of the observations grouped by (parameter set, query type), the
/// groups in ascending order of parameter set, then query type: `keys[i]`
/// is the pair of observation `i`.
pub fn query_type_groups(keys: &[(ParameterSetKey, String)]) -> (res: Vec<Vec<usize>>)
    ensures
        groups_by_key(group_seqs(res@), query_type_keys(keys@)),
        forall|g: int, m: int| 0 <= g < res.len() && 0 <= m < res@[g].len()
            ==> (#[trigger] res@[g]@[m]) < keys.len() && keys@[res@[g]@[m] as int].0 == keys@[res@[g]@[0] as int].0
                && keys@[res@[g]@[m] as int].1@ == keys@[res@[g]@[0] as int].1@,
        forall|g: int, h: int| 0 <= g < h < res.len() ==> {
            let a = keys@[(#[trigger] res@[g])@[0] as int];
            let b = keys@[(#[trigger] res@[h])@[0] as int];
            parameter_set_lt(a.0, b.0) || (a.0 == b.0 && text_lt(a.1@, b.1@))
        },
{
    let mut ks: Vec<Vec<u32>> = Vec::new();
    for i in 0..keys.len()
        invariant
            vec_views(ks@) == query_type_keys(keys@.take(i as int)),
    {
        let mut v = parameter_key_vec(&keys[i].0);
        let cs = chars_of(keys[i].1.as_str());
        let ghost base = v@;
        for j in 0..cs.len()
            invariant
                v@ == base + char_codes(cs@.take(j as int)),
        {
            v.push(cs[j] as u32);
            proof {
                assert(char_codes(cs@.take(j + 1)) =~= char_codes(cs@.take(j as int)).push(cs@[j as int] as u32));
                assert(v@ =~= base + char_codes(cs@.take(j + 1)));
            }
        }
        proof {
            assert(cs@.take(cs.len() as int) =~= cs@);
        }
        let ghost before = ks@;
        ks.push(v);
        proof {
            let kv = parameter_key_seq(keys@[i as int].0) + char_codes(keys@[i as int].1@);
            assert(vec_views(ks@) =~= vec_views(before).push(kv));
            assert(query_type_keys(keys@.take(i + 1)) =~= query_type_keys(keys@.take(i as int)).push(kv));
        }
    }
    proof {
        assert(keys@.take(keys.len() as int) =~= keys@);
    }
    let res = group_by_key(&ks);
    proof {
        let gs = group_seqs(res@);
        assert forall|g: int| 0 <= g < res.len() implies #[trigger] gs[g] == res@[g]@ by {}
        lemma_query_type_groups_law(keys@, gs);
        assert forall|g: int, m: int| 0 <= g < res.len() && 0 <= m < res@[g].len()
            implies (#[trigger] res@[g]@[m]) < keys.len() && keys@[res@[g]@[m] as int].0 == keys@[res@[g]@[0] as int].0
                && keys@[res@[g]@[m] as int].1@ == keys@[res@[g]@[0] as int].1@ by {
            assert(gs[g][m] == res@[g]@[m]);
        }
        assert forall|g: int, h: int| 0 <= g < h < res.len() implies {
            let a = keys@[(#[trigger] res@[g])@[0] as int];
            let b = keys@[(#[trigger] res@[h])@[0] as int];
            parameter_set_lt(a.0, b.0) || (a.0 == b.0 && text_lt(a.1@, b.1@))
        } by {
            assert(gs[g] == res@[g]@ && gs[h] == res@[h]@);
        }
    }
    res
}

/// The order of parameter sets: by k1, then b, then the title, keywords
/// and content weights.
pub open spec fn parameter_set_lt(a: ParameterSetKey, b: ParameterSetKey) -> bool {
    a.k1_pct < b.k1_pct || (a.k1_pct == b.k1_pct && (
    a.b_pct < b.b_pct || (a.b_pct == b.b_pct && (
    a.title_w_pct < b.title_w_pct || (a.title_w_pct == b.title_w_pct && (
    a.keywords_w_pct < b.keywords_w_pct || (a.keywords_w_pct == b.keywords_w_pct && (
    a.content_w_pct < b.content_w_pct))))))))
}

/// The order of texts: by the code point of their first differing
/// character, a proper prefix first.
pub open spec fn text_lt(a: Seq<char>, b: Seq<char>) -> bool
    decreases a.len(),
{
    if a.len() == 0 {
        b.len() > 0
    } else if b.len() == 0 {
        false
    } else if (a[0] as u32) < (b[0] as u32) {
        true
    } else if a[0] == b[0] {
        text_lt(a.drop_first(), b.drop_first())
    } else {
        false
    }
}

proof fn lemma_parameter_key_seq(a: ParameterSetKey, b: ParameterSetKey)
    ensures
        seq_lt(parameter_key_seq(a), parameter_key_seq(b)) == parameter_set_lt(a, b),
        (parameter_key_seq(a) == parameter_key_seq(b)) == (a == b),
{
    let e = Seq::<u32>::empty();
    let a4 = seq![a.content_w_pct as u32] + e;
    let a3 = seq![a.keywords_w_pct as u32] + a4;
    let a2 = seq![a.title_w_pct as u32] + a3;
    let a1 = seq![a.b_pct as u32] + a2;
    let a0 = seq![a.k1_pct as u32] + a1;
    let b4 = seq![b.content_w_pct as u32] + e;
    let b3 = seq![b.keywords_w_pct as u32] + b4;
    let b2 = seq![b.title_w_pct as u32] + b3;
    let b1 = seq![b.b_pct as u32] + b2;
    let b0 = seq![b.k1_pct as u32] + b1;
    assert(parameter_key_seq(a) =~= a0);
    assert(parameter_key_seq(b) =~= b0);
    lemma_seq_lt_cons(a.content_w_pct as u32, e, b.content_w_pct as u32, e);
    lemma_seq_lt_cons(a.keywords_w_pct as u32, a4, b.keywords_w_pct as u32, b4);
    lemma_seq_lt_cons(a.title_w_pct as u32, a3, b.title_w_pct as u32, b3);
    lemma_seq_lt_cons(a.b_pct as u32, a2, b.b_pct as u32, b2);
    lemma_seq_lt_cons(a.k1_pct as u32, a1, b.k1_pct as u32, b1);
    assert(!seq_lt(e, e));
    if parameter_key_seq(a) == parameter_key_seq(b) {
        assert(a0[0] == b0[0] && a0[1] == b0[1] && a0[2] == b0[2] && a0[3] == b0[3] && a0[4] == b0[4]);
    }
}

proof fn lemma_char_codes(a: Seq<char>, b: Seq<char>)
    ensures
        seq_lt(char_codes(a), char_codes(b)) == text_lt(a, b),
        (char_codes(a) == char_codes(b)) == (a == b),
    decreases a.len(),
{
    let ca = char_codes(a);
    let cb = char_codes(b);
    if a.len() > 0 && b.len() > 0 {
        lemma_char_codes(a.drop_first(), b.drop_first());
        assert(ca.drop_first() =~= char_codes(a.drop_first()));
        assert(cb.drop_first() =~= char_codes(b.drop_first()));
        assert(ca[0] == a[0] as u32 && cb[0] == b[0] as u32);
        vstd::utf8::char_u32_cast(a[0], a[0] as u32);
        vstd::utf8::char_u32_cast(b[0], b[0] as u32);
        if ca == cb {
            assert(a[0] as u32 == b[0] as u32);
            vstd::utf8::char_u32_cast(a[0], a[0] as u32);
            vstd::utf8::char_u32_cast(b[0], b[0] as u32);
            assert(a[0] == b[0]);
            assert(a.drop_first() == b.drop_first());
            assert forall|k: int| 0 <= k < a.len() implies a[k] == b[k] by {
                if k > 0 {
                    assert(a[k] == a.drop_first()[k - 1]);
                    assert(b[k] == b.drop_first()[k - 1]);
                }
            }
            assert(a =~= b);
        }
        if a == b {
            assert(ca =~= cb);
        }
    } else {
        if a.len() == 0 && b.len() == 0 {
            assert(a =~= b);
            assert(ca =~= cb);
        }
        if ca == cb {
            assert(ca.len() == cb.len());
        }
    }
}

/// Observations share a group exactly when their parameter sets are equal
/// (all five fields), every observation is in a group, positions within a
/// group ascend, and the groups follow the order of their parameter sets.
pub proof fn lemma_parameter_set_groups_law(keys: Seq<ParameterSetKey>, groups: Seq<Seq<usize>>)
    requires
        groups_by_key(groups, parameter_keys(keys)),
    ensures
        forall|g: int, m: int| 0 <= g < groups.len() && 0 <= m < groups[g].len()
            ==> (#[trigger] groups[g][m]) < keys.len() && keys[groups[g][m] as int] == keys[groups[g][0] as int],
        forall|g: int, h: int| 0 <= g < h < groups.len()
            ==> parameter_set_lt(keys[(#[trigger] groups[g])[0] as int], keys[(#[trigger] groups[h])[0] as int]),
        forall|g: int, m: int, t: int| 0 <= g < groups.len() && 0 <= m < t < groups[g].len()
            ==> (#[trigger] groups[g][m]) < (#[trigger] groups[g][t]),
        forall|i: int| 0 <= i < keys.len() ==> #[trigger] in_some_group(groups, i),
{
    let ks = parameter_keys(keys);
    assert forall|g: int, m: int| 0 <= g < groups.len() && 0 <= m < groups[g].len()
        implies (#[trigger] groups[g][m]) < keys.len() && keys[groups[g][m] as int] == keys[groups[g][0] as int] by {
        assert(groups[g].len() > 0);
        assert(groups[g][0] < ks.len());
        lemma_parameter_key_seq(keys[groups[g][m] as int], keys[groups[g][0] as int]);
    }
    assert forall|g: int, h: int| 0 <= g < h < groups.len()
        implies parameter_set_lt(keys[(#[trigger] groups[g])[0] as int], keys[(#[trigger] groups[h])[0] as int]) by {
        assert(groups[g].len() > 0 && groups[h].len() > 0);
        assert(groups[g][0] < ks.len() && groups[h][0] < ks.len());
        lemma_parameter_key_seq(keys[groups[g][0] as int], keys[groups[h][0] as int]);
    }
}

/// Observations share a group exactly when both their parameter sets and
/// their query types are equal, every observation is in a group, positions
/// within a group ascend, and the groups follow the order of parameter set,
/// then query type.
pub proof fn lemma_query_type_groups_law(keys: Seq<(ParameterSetKey, String)>, groups: Seq<Seq<usize>>)
    requires
        groups_by_key(groups, query_type_keys(keys)),
    ensures
        forall|g: int, m: int| 0 <= g < groups.len() && 0 <= m < groups[g].len()
            ==> (#[trigger] groups[g][m]) < keys.len() && keys[groups[g][m] as int].0 == keys[groups[g][0] as int].0
                && keys[groups[g][m] as int].1@ == keys[groups[g][0] as int].1@,
        forall|g: int, h: int| 0 <= g < h < groups.len() ==> {
            let a = keys[(#[trigger] groups[g])[0] as int];
            let b = keys[(#[trigger] groups[h])[0] as int];
            parameter_set_lt(a.0, b.0) || (a.0 == b.0 && text_lt(a.1@, b.1@))
        },
        forall|g: int, m: int, t: int| 0 <= g < groups.len() && 0 <= m < t < groups[g].len()
            ==> (#[trigger] groups[g][m]) < (#[trigger] groups[g][t]),
        forall|i: int| 0 <= i < keys.len() ==> #[trigger] in_some_group(groups, i),
{
    let ks = query_type_keys(keys);
    assert forall|x: (ParameterSetKey, String), y: (ParameterSetKey, String)| #![trigger parameter_key_seq(x.0) + char_codes(x.1@), parameter_key_seq(y.0) + char_codes(y.1@)]
        true implies {
            &&& ((parameter_key_seq(x.0) + char_codes(x.1@)) == (parameter_key_seq(y.0) + char_codes(y.1@))) == (x.0 == y.0 && x.1@ == y.1@)
            &&& seq_lt(parameter_key_seq(x.0) + char_codes(x.1@), parameter_key_seq(y.0) + char_codes(y.1@))
                == (parameter_set_lt(x.0, y.0) || (x.0 == y.0 && text_lt(x.1@, y.1@)))
        } by {
        let px = parameter_key_seq(x.0);
        let py = parameter_key_seq(y.0);
        let cx = char_codes(x.1@);
        let cy = char_codes(y.1@);
        lemma_parameter_key_seq(x.0, y.0);
        lemma_char_codes(x.1@, y.1@);
        lemma_seq_lt_concat(px, cx, py, cy);
        if px + cx == py + cy {
            assert(px =~= (px + cx).subrange(0, 5));
            assert(py =~= (py + cy).subrange(0, 5));
            assert(cx =~= (px + cx).subrange(5, (px + cx).len() as int));
            assert(cy =~= (py + cy).subrange(5, (py + cy).len() as int));
        }
    }
    assert forall|g: int, m: int| 0 <= g < groups.len() && 0 <= m < groups[g].len()
        implies (#[trigger] groups[g][m]) < keys.len() && keys[groups[g][m] as int].0 == keys[groups[g][0] as int].0
            && keys[groups[g][m] as int].1@ == keys[groups[g][0] as int].1@ by {
        assert(groups[g].len() > 0);
        assert(groups[g][0] < ks.len());
        let x = keys[groups[g][m] as int];
        let y = keys[groups[g][0] as int];
        assert(ks[groups[g][m] as int] == parameter_key_seq(x.0) + char_codes(x.1@));
        assert(ks[groups[g][0] as int] == parameter_key_seq(y.0) + char_codes(y.1@));
    }
    assert forall|g: int, h: int| 0 <= g < h < groups.len() implies {
        let a = keys[(#[trigger] groups[g])[0] as int];
        let b = keys[(#[trigger] groups[h])[0] as int];
        parameter_set_lt(a.0, b.0) || (a.0 == b.0 && text_lt(a.1@, b.1@))
    } by {
        assert(groups[g].len() > 0 && groups[h].len() > 0);
        assert(groups[g][0] < ks.len() && groups[h][0] < ks.len());
        let x = keys[groups[g][0] as int];
        let y = keys[groups[h][0] as int];
        assert(ks[groups[g][0] as int] == parameter_key_seq(x.0) + char_codes(x.1@));
        assert(ks[groups[h][0] as int] == parameter_key_seq(y.0) + char_codes(y.1@));
    }
}

} // verus!
