//! Shared pieces of benchmark evaluation: variants, cutoffs, document
//! grouping of chunk ids, data paths and the test-code filter.

use vstd::prelude::*;
use crate::bench_data::RelevanceLevel;
use crate::mock_qdrant::{chars_at, matches_at};
use crate::paths::{join_spec, path_join};
use crate::bench_gen::{data_dir, data_dir_spec};
use crate::text::chars_of;

verus! {

/// Cutoffs at which every ranking is evaluated.
pub const TOP_K_VALUES: [usize; 5] = [5, 10, 20, 30, 50];

/// Cutoff of the relevance detail and test-code diagnostics.
pub const DEFAULT_TOP_K: usize = 5;

/// Evaluation variant: whether test chunks participate in retrieval.
#[derive(Debug, Clone, Copy, PartialEq, Eq, Structural)]
pub enum EvalVariant {
    All,
    NoTest,
}

impl EvalVariant {
    pub fn label(self) -> (res: &'static str)
        ensures
            res@ == match self {
                EvalVariant::All => "all"@,
                EvalVariant::NoTest => "no_test"@,
            },
    {
        match self {
            EvalVariant::All => "all",
            EvalVariant::NoTest => "no_test",
        }
    }

    /// Whether the variant removes test chunks.
    pub fn filter_test_chunks(self) -> (res: bool)
        ensures
            res == (self == EvalVariant::NoTest),
    {
        match self {
            EvalVariant::All => false,
            EvalVariant::NoTest => true,
        }
    }
}

/// Indices of the chunks a variant keeps, in order: all of them, or those
/// that are not test code.
pub open spec fn kept_indices(is_test: Seq<bool>, variant: EvalVariant, n: int) -> Seq<usize>
    decreases n,
{
    if n <= 0 {
        Seq::empty()
    } else {
        kept_indices(is_test, variant, n - 1) + if variant == EvalVariant::NoTest && is_test[n - 1] {
            Seq::empty()
        } else {
            seq![(n - 1) as usize]
        }
    }
}

/// Whether a variant keeps chunk `i`: every chunk, or only those that are
/// not test code.
pub open spec fn keeps_chunk(is_test: Seq<bool>, variant: EvalVariant, i: int) -> bool {
    !(variant == EvalVariant::NoTest && is_test[i])
}

/// The kept indices ascend, and an index is kept exactly when it names a
/// chunk and the variant does not drop that chunk as test code.
pub proof fn lemma_kept_indices_law(is_test: Seq<bool>, variant: EvalVariant, n: int)
    requires
        0 <= n <= is_test.len(),
        n <= usize::MAX,
    ensures
        forall|a: int, b: int| 0 <= a < b < kept_indices(is_test, variant, n).len()
            ==> #[trigger] kept_indices(is_test, variant, n)[a] < #[trigger] kept_indices(is_test, variant, n)[b],
        forall|i: int| 0 <= i < kept_indices(is_test, variant, n).len()
            ==> (#[trigger] kept_indices(is_test, variant, n)[i]) < n,
        forall|i: int| 0 <= i < n ==> (kept_indices(is_test, variant, n).contains(i as usize)
            <==> #[trigger] keeps_chunk(is_test, variant, i)),
    decreases n,
{
    if n > 0 {
        lemma_kept_indices_law(is_test, variant, n - 1);
        let p = kept_indices(is_test, variant, n - 1);
        let r = kept_indices(is_test, variant, n);
        let drop = variant == EvalVariant::NoTest && is_test[n - 1];
        if drop {
            assert(r =~= p);
        } else {
            assert(r =~= p.push((n - 1) as usize));
            assert(r[p.len() as int] == (n - 1) as usize);
        }
        assert forall|i: int| 0 <= i < n implies (r.contains(i as usize)
            <==> #[trigger] keeps_chunk(is_test, variant, i)) by {
            let x = i as usize;
            if i < n - 1 {
                assert(p.contains(x) <==> keeps_chunk(is_test, variant, i));
                if p.contains(x) {
                    let k = choose|k: int| 0 <= k < p.len() && p[k] == x;
                    assert(r[k] == x);
                }
                if r.contains(x) {
                    let k = choose|k: int| 0 <= k < r.len() && r[k] == x;
                    if !drop {
                        assert(k < p.len());
                    }
                    assert(p[k] == x);
                }
            } else {
                if !drop {
                    assert(r[p.len() as int] == x);
                } else {
                    if r.contains(x) {
                        let k = choose|k: int| 0 <= k < r.len() && r[k] == x;
                        assert(p[k] < n - 1);
                    }
                }
            }
        }
    }
}

/// Indices of the chunks passing a variant's test-code filter, given which
/// chunks are test code.
pub fn select_chunk_indices(is_test: &[bool], variant: EvalVariant) -> (res: Vec<usize>)
    ensures
        res@ == kept_indices(is_test@, variant, is_test@.len() as int),
        forall|a: int, b: int| 0 <= a < b < res.len() ==> #[trigger] res@[a] < #[trigger] res@[b],
        forall|i: int| 0 <= i < res.len() ==> (#[trigger] res@[i]) < is_test.len(),
        forall|i: int| 0 <= i < is_test.len() ==> (res@.contains(i as usize)
            <==> #[trigger] keeps_chunk(is_test@, variant, i)),
{
    proof {
        lemma_kept_indices_law(is_test@, variant, is_test@.len() as int);
    }
    let mut res: Vec<usize> = Vec::new();
    for i in 0..is_test.len()
        invariant
            res@ == kept_indices(is_test@, variant, i as int),
    {
        if !variant.filter_test_chunks() || !is_test[i] {
            res.push(i);
        }
        proof {
            assert(res@ =~= kept_indices(is_test@, variant, i + 1));
        }
    }
    res
}

/// Start of the last occurrence of `m` in `s`, if any.
pub open spec fn last_match(s: Seq<char>, m: Seq<char>) -> Option<int> {
    if exists|i: int| #[trigger] chars_at(s, m, i) {
        Some(choose|i: int| #[trigger] chars_at(s, m, i) && forall|j: int| j > i ==> !chars_at(s, m, j))
    } else {
        None
    }
}

/// Document a chunk id belongs to: the part before the last `_bm25_`, else
/// before the last `_emb_`, else the whole id.
pub open spec fn document_group_spec(chunk_id: Seq<char>) -> Seq<char> {
    match last_match(chunk_id, "_bm25_"@) {
        Some(i) => chunk_id.take(i),
        None => match last_match(chunk_id, "_emb_"@) {
            Some(i) => chunk_id.take(i),
            None => chunk_id,
        },
    }
}

/// Start of the last occurrence of a non-empty `m` in `s`.
fn rfind(s: &[char], m: &[char]) -> (res: Option<usize>)
    requires
        m.len() > 0,
    ensures
        match res {
            Some(i) => last_match(s@, m@) == Some(i as int) && i + m.len() <= s.len(),
            None => last_match(s@, m@) is None,
        },
{
    if m.len() > s.len() {
        proof {
            assert forall|i: int| !#[trigger] chars_at(s@, m@, i) by {}
        }
        return None;
    }
    let mut i: usize = s.len() - m.len() + 1;
    while i > 0
        invariant
            i <= s.len() - m.len() + 1,
            m.len() > 0,
            m.len() <= s.len(),
            forall|j: int| j >= i ==> !#[trigger] chars_at(s@, m@, j),
        decreases i,
    {
        i = i - 1;
        if matches_at(s, m, i) {
            proof {
                let c = choose|c: int| #[trigger] chars_at(s@, m@, c) && forall|j: int| j > c ==> !chars_at(s@, m@, j);
                if c != i as int {
                    if c < i {
                    }
                }
            }
            return Some(i);
        }
    }
    proof {
        assert forall|j: int| !#[trigger] chars_at(s@, m@, j) by {
            if j < 0 {
            }
        }
    }
    None
}

/// Document id of a chunk id: the part before the last `_bm25_` or, failing
/// that, before the last `_emb_`; the whole id when neither occurs.
pub fn document_group_id(chunk_id: &str) -> (res: String)
    ensures
        res@ == document_group_spec(chunk_id@),
{
    let s = chars_of(chunk_id);
    let bm25 = chars_of("_bm25_");
    let emb = chars_of("_emb_");
    proof {
        reveal_strlit("_bm25_");
        reveal_strlit("_emb_");
    }
    let cut = match rfind(s.as_slice(), bm25.as_slice()) {
        Some(i) => Some(i),
        None => rfind(s.as_slice(), emb.as_slice()),
    };
    match cut {
        Some(i) => {
            let mut res = String::new();
            let mut k: usize = 0;
            while k < i
                invariant
                    k <= i,
                    i <= s.len(),
                    res@ == s@.take(k as int),
                decreases i - k,
            {
                crate::text::push_char(&mut res, s[k]);
                k = k + 1;
                proof {
                    assert(res@ =~= s@.take(k as int));
                }
            }
            res
        },
        None => String::from_str(chunk_id),
    }
}

/// Data paths of a benchmark project under the crate root.
pub struct BenchmarkPaths {
    pub manifest_dir: &'static str,
    pub project_name: &'static str,
}

/// `{root}/outputs/benchmark/{project}`.
pub open spec fn benchmark_output_dir(manifest_dir: Seq<char>, project: Seq<char>) -> Seq<char> {
    join_spec(join_spec(join_spec(manifest_dir, "outputs"@), "benchmark"@), project)
}

impl BenchmarkPaths {
    pub fn new(manifest_dir: &'static str, project_name: &'static str) -> (res: Self)
        ensures
            res.manifest_dir == manifest_dir,
            res.project_name == project_name,
    {
        BenchmarkPaths { manifest_dir, project_name }
    }

    /// `{root}/outputs/benchmark/{project}`.
    pub fn output_dir(&self) -> (res: String)
        ensures
            res@ == benchmark_output_dir(self.manifest_dir@, self.project_name@),
    {
        let a = path_join(self.manifest_dir, "outputs");
        let b = path_join(a.as_str(), "benchmark");
        path_join(b.as_str(), self.project_name)
    }

    /// `{root}/data/benchmark/{baseline}/{project}/bge-m3/bench_data.rkyv`.
    pub fn data_dir(&self, baseline: &str) -> (res: String)
        ensures
            res@ == join_spec(data_dir_spec(self.manifest_dir@, baseline@, self.project_name@), "bench_data.rkyv"@),
    {
        let d = data_dir(self.manifest_dir, baseline, self.project_name);
        path_join(d.as_str(), "bench_data.rkyv")
    }
}

/// Per-retriever test-code diagnostics for one baseline.
#[derive(Debug, Clone)]
pub struct TestDiagnostics {
    pub baseline: String,
    pub retriever: String,
    pub total_chunks: usize,
    pub test_chunks: usize,
    pub unknown_chunks: usize,
    /// Chunks removed by the `NoTest` variant (equals `test_chunks`).
    pub filtered_chunks: usize,
    /// Test chunks in the top-5 rankings across all queries of the `All`
    /// variant (occurrences, not unique chunks).
    pub top_k_test_occurrences: usize,
    /// Queries whose top-5 contains at least one test chunk.
    pub top_k_test_queries_affected: usize,
}

/// Top-k relevance detail of one query: (rank, location, level) rows.
#[derive(Debug, Clone)]
pub struct RelevanceInfo {
    pub baseline: String,
    pub query_id: String,
    pub query_text: String,
    pub retriever_type: String,
    pub strong_chunks: Vec<(usize, String, RelevanceLevel)>,
    pub related_chunks: Vec<(usize, String, RelevanceLevel)>,
}

} // verus!
