//! Method matrix of the aggregation-enhance benchmark: three base rankings,
//! each plain and with relation, summary or both boosts.

use vstd::prelude::*;
use crate::paths::{join_spec, path_join};
use crate::judgments::evaluate::{BenchmarkPaths, benchmark_output_dir};
use crate::text::{chars_of, parse_i64, parse_i64_spec, push_str, string_views};
use crate::bench_data::ChunkData;
use crate::aggregation_enhance::enhance::{primary_entity, primary_spec};

verus! {

/// The only evaluated baseline in this benchmark.
pub const BASELINE: &'static str = "full_pipeline";

fn with_suffix(base: &str, suffix: &str) -> (res: String)
    ensures
        res@ == base@ + suffix@,
{
    let mut s = String::from_str(base);
    push_str(&mut s, suffix);
    s
}

/// Appends a base method and its three boosted variants.
fn push_family(methods: &mut Vec<String>, base: &str)
    ensures
        string_views(final(methods)@) == string_views(old(methods)@) + seq![base@, base@ + "+rel"@, base@ + "+sum"@, base@ + "+both"@],
{
    methods.push(String::from_str(base));
    methods.push(with_suffix(base, "+rel"));
    methods.push(with_suffix(base, "+sum"));
    methods.push(with_suffix(base, "+both"));
    proof {
        assert(string_views(final(methods)@) =~= string_views(old(methods)@) + seq![base@, base@ + "+rel"@, base@ + "+sum"@, base@ + "+both"@]);
    }
}

/// Ordered list of every evaluated method name: for each base (`emb`,
/// `bm25`, `minmax-0.5`) the base itself, then `+rel`, `+sum` and `+both`.
pub fn ordered_methods() -> (res: Vec<String>)
    ensures
        string_views(res@) == seq![
            "emb"@, "emb"@ + "+rel"@, "emb"@ + "+sum"@, "emb"@ + "+both"@,
            "bm25"@, "bm25"@ + "+rel"@, "bm25"@ + "+sum"@, "bm25"@ + "+both"@,
            "minmax-0.5"@, "minmax-0.5"@ + "+rel"@, "minmax-0.5"@ + "+sum"@, "minmax-0.5"@ + "+both"@,
        ],
{
    let mut methods: Vec<String> = Vec::new();
    push_family(&mut methods, "emb");
    push_family(&mut methods, "bm25");
    push_family(&mut methods, "minmax-0.5");
    proof {
        assert(string_views(methods@) =~= seq![
            "emb"@, "emb"@ + "+rel"@, "emb"@ + "+sum"@, "emb"@ + "+both"@,
            "bm25"@, "bm25"@ + "+rel"@, "bm25"@ + "+sum"@, "bm25"@ + "+both"@,
            "minmax-0.5"@, "minmax-0.5"@ + "+rel"@, "minmax-0.5"@ + "+sum"@, "minmax-0.5"@ + "+both"@,
        ]);
    }
    methods
}

/// Whether a method row follows the production boost path: only dense
/// (`emb`) recall collects boosts in production.
pub open spec fn production_parity(method: Seq<char>) -> bool {
    method == "emb"@ || method == "emb+rel"@ || method == "emb+sum"@ || method == "emb+both"@
}

fn str_eq(a: &str, b: &str) -> (res: bool)
    ensures
        res == (a@ == b@),
{
    let x = String::from_str(a);
    let y = String::from_str(b);
    x == y
}

pub fn is_production_parity(method: &str) -> (res: bool)
    ensures
        res == production_parity(method@),
{
    str_eq(method, "emb") || str_eq(method, "emb+rel") || str_eq(method, "emb+sum") || str_eq(method, "emb+both")
}

/// Offline signal coverage for the manifest.
#[derive(Debug, Default)]
pub struct SignalStats {
    pub files: usize,
    pub entities: usize,
    pub emb_chunks: usize,
    pub bm25_chunks: usize,
}

/// Output directory of a project's reports:
/// `{root}/outputs/benchmark/{project}/aggregation_enhance`.
pub fn output_dir(manifest_dir: &'static str, project: &'static str) -> (res: String)
    ensures
        res@ == join_spec(benchmark_output_dir(manifest_dir@, project@), "aggregation_enhance"@),
{
    let d = BenchmarkPaths::new(manifest_dir, project).output_dir();
    path_join(d.as_str(), "aggregation_enhance")
}

/// Entity of a fused entry: the id in an `e:<id>` key when it parses as an
/// `i64`, otherwise the primary entity of the entry's chunk.
pub open spec fn fused_entity_spec(key: Seq<char>, chunk: ChunkData) -> Option<i64> {
    if key.len() >= 2 && key[0] == 'e' && key[1] == ':' && parse_i64_spec(key.skip(2)) is Some {
        parse_i64_spec(key.skip(2))
    } else {
        primary_spec(chunk)
    }
}

pub fn fused_entity(key: &str, chunk: &ChunkData) -> (res: Option<i64>)
    ensures
        res == fused_entity_spec(key@, *chunk),
{
    let k = chars_of(key);
    if k.len() >= 2 && k[0] == 'e' && k[1] == ':' {
        let rest = vstd::slice::slice_subrange(k.as_slice(), 2, k.len());
        proof {
            assert(rest@ =~= key@.skip(2));
        }
        match parse_i64(rest) {
            Some(id) => {
                return Some(id);
            },
            None => {},
        }
    }
    primary_entity(chunk)
}

} // verus!
