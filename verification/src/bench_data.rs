//! Benchmark data model: query types, relevance judgments, chunk metadata
//! and the source-range validation rules.

use vstd::prelude::*;
use crate::text::{push_char, string_views};

verus! {

/// Query type classification.
///
/// The retrieval tiers sit on two perturbation axes (lexical x structural):
/// `Qualified` keeps symbol tokens inside natural-language structure, `Fuzzy`
/// perturbs the symbol tokens, `Semantic` describes behavior with no lexical
/// overlap required, `CrossLang` uses non-English query text and
/// `FileDocumentation` targets whole-file documentation.
#[derive(Debug, Clone, Copy, PartialEq, Eq, Structural)]
pub enum QueryType {
    Qualified,
    Fuzzy,
    Semantic,
    CrossLang,
    FileDocumentation,
}

/// Serialized (snake case) name of a query type.
pub open spec fn query_type_name(t: QueryType) -> Seq<char> {
    match t {
        QueryType::Qualified => "qualified"@,
        QueryType::Fuzzy => "fuzzy"@,
        QueryType::Semantic => "semantic"@,
        QueryType::CrossLang => "cross_lang"@,
        QueryType::FileDocumentation => "file_documentation"@,
    }
}

impl QueryType {
    /// Serialized name, as used in reports and file names.
    pub fn as_str(&self) -> (res: &'static str)
        ensures
            res@ == query_type_name(*self),
    {
        match self {
            QueryType::Qualified => "qualified",
            QueryType::Fuzzy => "fuzzy",
            QueryType::Semantic => "semantic",
            QueryType::CrossLang => "cross_lang",
            QueryType::FileDocumentation => "file_documentation",
        }
    }
}

/// Evaluation scope configuration.
#[derive(Debug, Clone, Copy, PartialEq, Eq, Structural)]
pub enum EvaluationScope {
    CoreRetrieval,
    DiagnosticCrossLang,
    All,
}

/// Whether a scope includes a query type.
pub open spec fn scope_includes(scope: EvaluationScope, t: QueryType) -> bool {
    match scope {
        EvaluationScope::CoreRetrieval => t == QueryType::Qualified || t == QueryType::Fuzzy
            || t == QueryType::Semantic,
        EvaluationScope::DiagnosticCrossLang => t == QueryType::CrossLang,
        EvaluationScope::All => true,
    }
}

impl EvaluationScope {
    /// Whether the given query type is evaluated in this scope.
    pub fn includes_query_type(&self, query_type: QueryType) -> (res: bool)
        ensures
            res == scope_includes(*self, query_type),
    {
        match self {
            EvaluationScope::CoreRetrieval => query_type == QueryType::Qualified || query_type
                == QueryType::Fuzzy || query_type == QueryType::Semantic,
            EvaluationScope::DiagnosticCrossLang => query_type == QueryType::CrossLang,
            EvaluationScope::All => true,
        }
    }

    /// Human-readable description of the scope.
    pub fn description(&self) -> (res: &'static str)
        ensures
            *self == EvaluationScope::CoreRetrieval ==> res@
                == "Qualified, Fuzzy and Semantic queries only (core retrieval evaluation)"@,
            *self == EvaluationScope::DiagnosticCrossLang ==> res@
                == "Cross-language queries only (diagnostic)"@,
            *self == EvaluationScope::All ==> res@ == "All query types"@,
    {
        match self {
            EvaluationScope::CoreRetrieval => {
                "Qualified, Fuzzy and Semantic queries only (core retrieval evaluation)"
            },
            EvaluationScope::DiagnosticCrossLang => "Cross-language queries only (diagnostic)",
            EvaluationScope::All => "All query types",
        }
    }

    /// Query types included in this scope, in declaration order.
    pub fn included_query_types(&self) -> (res: Vec<QueryType>)
        ensures
            forall|t: QueryType| res@.contains(t) <==> scope_includes(*self, t),
            *self == EvaluationScope::CoreRetrieval ==> res@ == seq![
                QueryType::Qualified,
                QueryType::Fuzzy,
                QueryType::Semantic,
            ],
            *self == EvaluationScope::DiagnosticCrossLang ==> res@ == seq![QueryType::CrossLang],
            *self == EvaluationScope::All ==> res@ == seq![
                QueryType::Qualified,
                QueryType::Fuzzy,
                QueryType::Semantic,
                QueryType::CrossLang,
                QueryType::FileDocumentation,
            ],
    {
        let mut res: Vec<QueryType> = Vec::new();
        match self {
            EvaluationScope::CoreRetrieval => {
                res.push(QueryType::Qualified);
                res.push(QueryType::Fuzzy);
                res.push(QueryType::Semantic);
            },
            EvaluationScope::DiagnosticCrossLang => {
                res.push(QueryType::CrossLang);
            },
            EvaluationScope::All => {
                res.push(QueryType::Qualified);
                res.push(QueryType::Fuzzy);
                res.push(QueryType::Semantic);
                res.push(QueryType::CrossLang);
                res.push(QueryType::FileDocumentation);
            },
        }
        proof {
            assert forall|t: QueryType| res@.contains(t) <==> scope_includes(*self, t) by {
                if scope_includes(*self, t) {
                    match t {
                        QueryType::Qualified => assert(res@[0] == t),
                        QueryType::Fuzzy => assert(res@[1] == t),
                        QueryType::Semantic => assert(res@[2] == t),
                        QueryType::CrossLang => {
                            if *self == EvaluationScope::All {
                                assert(res@[3] == t);
                            } else {
                                assert(res@[0] == t);
                            }
                        },
                        QueryType::FileDocumentation => assert(res@[4] == t),
                    }
                }
            }
        }
        res
    }

    /// Serialized name of the scope.
    pub fn as_str(&self) -> (res: &'static str)
        ensures
            *self == EvaluationScope::CoreRetrieval ==> res@ == "core_retrieval"@,
            *self == EvaluationScope::DiagnosticCrossLang ==> res@ == "diagnostic_cross_lang"@,
            *self == EvaluationScope::All ==> res@ == "all"@,
    {
        match self {
            EvaluationScope::CoreRetrieval => "core_retrieval",
            EvaluationScope::DiagnosticCrossLang => "diagnostic_cross_lang",
            EvaluationScope::All => "all",
        }
    }
}

/// Relevance level for a source code snippet, ordered from irrelevant to
/// strongly relevant.
#[derive(Debug, Clone, Copy, PartialEq, Eq, Structural, PartialOrd, Ord)]
pub enum RelevanceLevel {
    /// Irrelevant.
    Irrelevant,
    /// Related (implements or contains related logic).
    Related,
    /// Strongly relevant (direct definition or core implementation).
    Strong,
}

/// Numeric grade of a relevance level.
pub open spec fn level_grade(l: RelevanceLevel) -> u8 {
    match l {
        RelevanceLevel::Irrelevant => 0,
        RelevanceLevel::Related => 1,
        RelevanceLevel::Strong => 2,
    }
}

impl RelevanceLevel {
    /// Numeric grade (0 irrelevant, 1 related, 2 strong).
    pub fn grade(&self) -> (res: u8)
        ensures
            res == level_grade(*self),
    {
        match self {
            RelevanceLevel::Irrelevant => 0,
            RelevanceLevel::Related => 1,
            RelevanceLevel::Strong => 2,
        }
    }

    /// Serialized name of the level.
    pub fn as_str(&self) -> (res: &'static str)
        ensures
            *self == RelevanceLevel::Irrelevant ==> res@ == "irrelevant"@,
            *self == RelevanceLevel::Related ==> res@ == "related"@,
            *self == RelevanceLevel::Strong ==> res@ == "strong"@,
    {
        match self {
            RelevanceLevel::Irrelevant => "irrelevant",
            RelevanceLevel::Related => "related",
            RelevanceLevel::Strong => "strong",
        }
    }
}

/// Source code location range (stable across chunking changes).
#[derive(Debug, Clone)]
pub struct SourceRange {
    /// File path (relative to the fixture root).
    pub file: String,
    /// Start line (1-indexed).
    pub start_line: usize,
    /// End line (1-indexed, inclusive).
    pub end_line: usize,
}

/// Relevance judgment for a query: which source ranges are relevant.
/// Unlisted code is implicitly irrelevant.
#[derive(Debug, Clone)]
pub struct RelevanceJudgment {
    pub id: String,
    pub query_text: String,
    pub query_type: QueryType,
    /// Perturbation subtype for fuzzy queries; `None` for other types.
    pub fuzzy_subtype: Option<String>,
    /// Source ranges with their Strong/Related levels.
    pub relevant_ranges: Vec<(SourceRange, RelevanceLevel)>,
}

/// Well-formed judgment: at least one relevant range, each range 1-indexed
/// and non-inverted with a Strong or Related level, and a fuzzy subtype
/// exactly on fuzzy queries.
pub open spec fn judgment_wf(j: RelevanceJudgment) -> bool {
    &&& j.relevant_ranges.len() > 0
    &&& forall|i: int|
        #![trigger j.relevant_ranges@[i]]
        0 <= i < j.relevant_ranges.len() ==> {
            let (r, l) = j.relevant_ranges@[i];
            1 <= r.start_line <= r.end_line && l != RelevanceLevel::Irrelevant
        }
    &&& (j.query_type == QueryType::Fuzzy <==> j.fuzzy_subtype is Some)
}

/// A relevant range as values: file, start line, end line and level.
pub type RangeView = (Seq<char>, usize, usize, RelevanceLevel);

/// A judgment as values: id, query text, query type, fuzzy subtype and its
/// relevant ranges in order.
pub type JudgmentView = (Seq<char>, Seq<char>, QueryType, Option<Seq<char>>, Seq<RangeView>);

pub open spec fn range_view(r: (SourceRange, RelevanceLevel)) -> RangeView {
    (r.0.file@, r.0.start_line, r.0.end_line, r.1)
}

pub open spec fn judgment_view(j: RelevanceJudgment) -> JudgmentView {
    (
        j.id@,
        j.query_text@,
        j.query_type,
        match j.fuzzy_subtype {
            Some(s) => Some(s@),
            None => None,
        },
        j.relevant_ranges@.map_values(|r: (SourceRange, RelevanceLevel)| range_view(r)),
    )
}

pub open spec fn judgment_views(js: Seq<RelevanceJudgment>) -> Seq<JudgmentView> {
    js.map_values(|j: RelevanceJudgment| judgment_view(j))
}

/// A query judgment with relevance labels by entity name (legacy).
#[derive(Debug, Clone)]
pub struct QueryJudgment {
    pub id: String,
    pub query_text: String,
    pub query_type: QueryType,
    /// Names of chunks expected to match (positive samples).
    pub relevant_names: Vec<String>,
    /// Names of distractor chunks that should not match (negative samples).
    pub irrelevant_names: Vec<String>,
}

/// Test-code marker status carried by a chunk.
#[derive(Debug, Clone, Copy, PartialEq, Eq, Structural)]
pub enum TestStatus {
    Test,
    Unknown,
}

/// End-to-end test marker of a chunk.
#[derive(Debug, Clone, Copy, PartialEq, Eq, Structural)]
pub struct TestInfo {
    pub status: TestStatus,
}

/// A single source-covered line interval within a benchmark chunk.
#[derive(Debug, Clone, Copy, PartialEq, Eq, Structural)]
pub struct ChunkSourceRange {
    /// Start line (1-indexed, 0 if unavailable).
    pub start_line: usize,
    /// End line (1-indexed, 0 if unavailable).
    pub end_line: usize,
}

/// A single chunk's metadata (shared across retriever paths).
#[derive(Debug, Clone)]
pub struct ChunkData {
    pub chunk_id: String,
    pub entity_name: String,
    pub file_path: String,
    /// Start line in the source file (1-indexed, 0 if unknown).
    pub start_line: usize,
    /// End line in the source file (1-indexed, 0 if unknown).
    pub end_line: usize,
    /// Precise source coverage, without repeated impl or module headers.
    pub source_ranges: Vec<ChunkSourceRange>,
    /// Serialized span kind from the chunker.
    pub source_span_kind: String,
    /// Test-code marker inherited from the chunker.
    pub test_info: TestInfo,
    /// Source language name, `None` for documents and plain text.
    pub language: Option<String>,
    /// Project-scoped entity ids, in chunk order.
    pub entity_ids: Vec<i64>,
    /// Segment id for cross-path alignment.
    pub segment_id: String,
}

/// A query with its relevance judgments by name.
#[derive(Debug, Clone)]
pub struct QueryData {
    pub id: String,
    pub text: String,
    pub query_type: QueryType,
    /// Positive sample entity names.
    pub relevant_names: Vec<String>,
    /// Negative sample entity names.
    pub irrelevant_names: Vec<String>,
}

/// BM25 document fields consumed by the offline scorer.
#[derive(Debug, Clone)]
pub struct Bm25DocRecord {
    pub title: String,
    pub keywords: String,
    pub content: String,
}

/// Owned copies of string literals, in order.
pub fn strings(items: &[&str]) -> (res: Vec<String>)
    ensures
        res.len() == items.len(),
        forall|i: int| 0 <= i < items.len() ==> #[trigger] res@[i]@ == items@[i]@,
        string_views(res@) == items@.map_values(|s: &str| s@),
{
    let mut res: Vec<String> = Vec::new();
    for i in 0..items.len()
        invariant
            res.len() == i,
            forall|k: int| 0 <= k < i ==> #[trigger] res@[k]@ == items@[k]@,
    {
        res.push(String::from_str(items[i]));
    }
    proof {
        assert(string_views(res@) =~= items@.map_values(|s: &str| s@));
    }
    res
}

fn query_judgment(
    id: &str,
    query_text: &str,
    query_type: QueryType,
    relevant_names: Vec<String>,
    irrelevant_names: Vec<String>,
) -> (res: QueryJudgment)
    ensures
        res.id@ == id@,
        res.query_text@ == query_text@,
        res.query_type == query_type,
        res.relevant_names == relevant_names,
        res.irrelevant_names == irrelevant_names,
        query_judgment_view(res) == (id@, query_text@, query_type, string_views(relevant_names@), string_views(irrelevant_names@)),
{
    QueryJudgment {
        id: String::from_str(id),
        query_text: String::from_str(query_text),
        query_type,
        relevant_names,
        irrelevant_names,
    }
}

/// A name-based query judgment as values: id, query text, query type,
/// relevant names and irrelevant names.
pub type QueryJudgmentView = (Seq<char>, Seq<char>, QueryType, Seq<Seq<char>>, Seq<Seq<char>>);

pub open spec fn query_judgment_view(q: QueryJudgment) -> QueryJudgmentView {
    (q.id@, q.query_text@, q.query_type, string_views(q.relevant_names@), string_views(q.irrelevant_names@))
}

/// The once_cell reference query set as values.
pub open spec fn once_cell_query_table() -> Seq<QueryJudgmentView> {
    seq![
        ("G1Q1"@, "get_or_init in OnceCell"@, QueryType::Qualified, seq!["get_or_init"@], seq!["bubble_sort"@, "quick_sort"@, "Matrix::new"@]),
        ("G1Q2"@, "set method on OnceCell"@, QueryType::Qualified, seq!["set"@], seq!["bubble_sort"@, "merge_sort"@, "determinant"@]),
        ("G1Q3"@, "new constructor in OnceCell"@, QueryType::Qualified, seq!["new"@], seq!["Matrix::identity"@, "bubble_sort"@]),
        ("G2Q1"@, "initialize a value only once"@, QueryType::Semantic, seq!["get_or_init"@, "get_or_try_init"@, "set"@, "try_insert"@], seq!["bubble_sort"@, "quick_sort"@]),
        ("G2Q2"@, "read the stored value from cell"@, QueryType::Semantic, seq!["get"@, "get_mut"@], seq!["transpose"@, "determinant"@]),
        ("G2Q3"@, "safely retrieve optional value"@, QueryType::Semantic, seq!["get"@, "get_mut"@, "into_inner"@], seq!["merge_sort"@, "Matrix::zero"@]),
        ("G3Q1"@, "lazy evaluation delayed computation"@, QueryType::Semantic, seq!["into_value"@, "force"@, "force_mut"@], seq!["bubble_sort"@, "matrix_multiply"@]),
        ("G3Q2"@, "consume and extract inner value"@, QueryType::Semantic, seq!["into_inner"@, "take"@], seq!["quick_sort"@, "transpose"@]),
        ("G4Q1"@, "懒加载的全局变量"@, QueryType::CrossLang, seq!["Lazy::new"@, "Lazy::force"@, "once_cell_lib"@], seq!["bubble_sort"@, "Matrix::new"@]),
        ("G4Q2"@, "线程安全的一次初始化"@, QueryType::CrossLang, seq!["sync::OnceCell"@, "sync::Lazy"@, "get_or_init"@], seq!["quick_sort"@, "merge_sort"@]),
        ("G4Q3"@, "获取可能未初始化的值"@, QueryType::CrossLang, seq!["get"@, "get_mut"@], seq!["determinant"@, "Matrix::identity"@]),
        ("G4Q4"@, "延迟初始化的高性能实现"@, QueryType::CrossLang, seq!["Lazy"@, "once_cell_lib"@, "sync::Lazy"@], seq!["bubble_sort"@, "transpose"@]),
        ("G5Q1"@, "thread synchronization blocking wait once cell"@, QueryType::Semantic, seq!["OnceCell"@, "initialize_or_wait"@, "wait"@, "Guard"@], seq!["add"@]),
        ("G5Q2"@, "parking lot based once cell implementation"@, QueryType::Semantic, seq!["OnceCell"@, "initialize_inner"@, "Guard"@], seq!["add"@]),
        ("G5Q3"@, "no standard library once cell critical section"@, QueryType::Semantic, seq!["OnceCell"@], seq!["add"@]),
        ("G5Q4"@, "lock-free non-blocking once cell atomic"@, QueryType::Semantic, seq!["OnceNonZeroUsize"@, "OnceBool"@, "OnceRef"@, "OnceBox"@], seq!["add"@]),
    ]
}

/// Reference query set for the once_cell benchmark (legacy, name-based).
pub fn once_cell_queries() -> (res: Vec<QueryJudgment>)
    ensures
        res@.map_values(|q: QueryJudgment| query_judgment_view(q)) == once_cell_query_table(),
{
    let mut res: Vec<QueryJudgment> = Vec::new();
    res.push(query_judgment("G1Q1", "get_or_init in OnceCell", QueryType::Qualified, strings(&["get_or_init"]), strings(&["bubble_sort", "quick_sort", "Matrix::new"])));
    res.push(query_judgment("G1Q2", "set method on OnceCell", QueryType::Qualified, strings(&["set"]), strings(&["bubble_sort", "merge_sort", "determinant"])));
    res.push(query_judgment("G1Q3", "new constructor in OnceCell", QueryType::Qualified, strings(&["new"]), strings(&["Matrix::identity", "bubble_sort"])));
    res.push(query_judgment("G2Q1", "initialize a value only once", QueryType::Semantic, strings(&["get_or_init", "get_or_try_init", "set", "try_insert"]), strings(&["bubble_sort", "quick_sort"])));
    res.push(query_judgment("G2Q2", "read the stored value from cell", QueryType::Semantic, strings(&["get", "get_mut"]), strings(&["transpose", "determinant"])));
    res.push(query_judgment("G2Q3", "safely retrieve optional value", QueryType::Semantic, strings(&["get", "get_mut", "into_inner"]), strings(&["merge_sort", "Matrix::zero"])));
    res.push(query_judgment("G3Q1", "lazy evaluation delayed computation", QueryType::Semantic, strings(&["into_value", "force", "force_mut"]), strings(&["bubble_sort", "matrix_multiply"])));
    res.push(query_judgment("G3Q2", "consume and extract inner value", QueryType::Semantic, strings(&["into_inner", "take"]), strings(&["quick_sort", "transpose"])));
    res.push(query_judgment("G4Q1", "懒加载的全局变量", QueryType::CrossLang, strings(&["Lazy::new", "Lazy::force", "once_cell_lib"]), strings(&["bubble_sort", "Matrix::new"])));
    res.push(query_judgment("G4Q2", "线程安全的一次初始化", QueryType::CrossLang, strings(&["sync::OnceCell", "sync::Lazy", "get_or_init"]), strings(&["quick_sort", "merge_sort"])));
    res.push(query_judgment("G4Q3", "获取可能未初始化的值", QueryType::CrossLang, strings(&["get", "get_mut"]), strings(&["determinant", "Matrix::identity"])));
    res.push(query_judgment("G4Q4", "延迟初始化的高性能实现", QueryType::CrossLang, strings(&["Lazy", "once_cell_lib", "sync::Lazy"]), strings(&["bubble_sort", "transpose"])));
    res.push(query_judgment("G5Q1", "thread synchronization blocking wait once cell", QueryType::Semantic, strings(&["OnceCell", "initialize_or_wait", "wait", "Guard"]), strings(&["add"])));
    res.push(query_judgment("G5Q2", "parking lot based once cell implementation", QueryType::Semantic, strings(&["OnceCell", "initialize_inner", "Guard"]), strings(&["add"])));
    res.push(query_judgment("G5Q3", "no standard library once cell critical section", QueryType::Semantic, strings(&["OnceCell"]), strings(&["add"])));
    res.push(query_judgment("G5Q4", "lock-free non-blocking once cell atomic", QueryType::Semantic, strings(&["OnceNonZeroUsize", "OnceBool", "OnceRef", "OnceBox"]), strings(&["add"])));
    proof {
        assert(res@.map_values(|q: QueryJudgment| query_judgment_view(q)) =~~= once_cell_query_table());
    }
    res
}

/// `path` with every backslash turned into a forward slash.
pub open spec fn forward_slashes(path: Seq<char>) -> Seq<char> {
    path.map_values(|c: char| if c == '\\' { '/' } else { c })
}

/// Normalizes a file path for judgment matching: backslashes become
/// forward slashes, everything else (the full relative path) is kept.
pub fn normalize_path(path: &str) -> (res: String)
    ensures
        res@ == forward_slashes(path@),
{
    let mut res = String::new();
    for c in it: path.chars()
        invariant
            it.seq() == path@,
            res@ == forward_slashes(it.seq().take(it.index())),
    {
        proof {
            assert(forward_slashes(it.seq().take(it.index() + 1)) =~= forward_slashes(
                it.seq().take(it.index()),
            ).push(if c == '\\' { '/' } else { c }));
        }
        if c == '\\' {
            push_char(&mut res, '/');
        } else {
            push_char(&mut res, c);
        }
    }
    proof {
        assert(path@.take(path@.len() as int) =~= path@);
    }
    res
}

/// A valid source range starts at line 1 or later and does not end before
/// it starts.
pub open spec fn range_valid(r: ChunkSourceRange) -> bool {
    r.start_line > 0 && r.end_line >= r.start_line
}

/// Whether every source range of a chunk is valid (vacuously true for a
/// chunk without ranges).
pub open spec fn chunk_ranges_valid(chunk: ChunkData) -> bool {
    forall|i: int| 0 <= i < chunk.source_ranges.len() ==> range_valid(#[trigger] chunk.source_ranges@[i])
}

/// Checks a single source range.
pub fn is_valid_source_range(range: &ChunkSourceRange) -> (res: bool)
    ensures
        res == range_valid(*range),
{
    range.start_line > 0 && range.end_line >= range.start_line
}

/// Validates all source ranges of a chunk.
pub fn validate_chunk_source_ranges(chunk: &ChunkData) -> (res: bool)
    ensures
        res == chunk_ranges_valid(*chunk),
{
    for i in 0..chunk.source_ranges.len()
        invariant
            forall|k: int| 0 <= k < i ==> range_valid(#[trigger] chunk.source_ranges@[k]),
    {
        if !is_valid_source_range(&chunk.source_ranges[i]) {
            return false;
        }
    }
    true
}

/// Error message for an invalid chunk of a baseline.
pub open spec fn invalid_ranges_message(baseline: Seq<char>, chunk_id: Seq<char>) -> Seq<char> {
    "invalid source_ranges in "@ + baseline + " / "@ + chunk_id
}

/// Errors of one baseline's chunk list: (chunk index, message) for every
/// chunk with an invalid source range, in chunk order.
pub open spec fn baseline_errors(chunks: Seq<ChunkData>, baseline: Seq<char>) -> Seq<(usize, Seq<char>)>
    decreases chunks.len(),
{
    if chunks.len() == 0 {
        Seq::empty()
    } else {
        let prev = baseline_errors(chunks.drop_last(), baseline);
        if chunk_ranges_valid(chunks.last()) {
            prev
        } else {
            prev.push(((chunks.len() - 1) as usize, invalid_ranges_message(baseline, chunks.last().chunk_id@)))
        }
    }
}

/// Errors over the first `n` (chunk list, baseline name) pairs.
pub open spec fn all_baseline_errors(lists: Seq<Seq<ChunkData>>, names: Seq<Seq<char>>, n: nat) -> Seq<(usize, Seq<char>)>
    decreases n,
{
    if n == 0 {
        Seq::empty()
    } else {
        all_baseline_errors(lists, names, (n - 1) as nat) + baseline_errors(lists[n - 1], names[n - 1])
    }
}

/// The message views of an error list.
pub open spec fn error_views(errors: Seq<(usize, String)>) -> Seq<(usize, Seq<char>)> {
    errors.map_values(|e: (usize, String)| (e.0, e.1@))
}

/// Validates the source ranges of several chunk lists (one per baseline,
/// paired with the baseline names; extra entries of the longer list are
/// ignored). Returns (chunk index, message) for every invalid chunk.
pub fn validate_source_ranges_consistency(chunks_list: &[&[ChunkData]], baseline_names: &[&str]) -> (res: Vec<(usize, String)>)
    ensures
        error_views(res@) == all_baseline_errors(
            chunks_list@.map_values(|l: &[ChunkData]| l@),
            baseline_names@.map_values(|n: &str| n@),
            if chunks_list.len() < baseline_names.len() { chunks_list.len() as nat } else { baseline_names.len() as nat },
        ),
{
    let ghost lists = chunks_list@.map_values(|l: &[ChunkData]| l@);
    let ghost names = baseline_names@.map_values(|n: &str| n@);
    let n = if chunks_list.len() < baseline_names.len() { chunks_list.len() } else { baseline_names.len() };
    let mut errors: Vec<(usize, String)> = Vec::new();
    for b in 0..n
        invariant
            n <= chunks_list.len(),
            n <= baseline_names.len(),
            lists == chunks_list@.map_values(|l: &[ChunkData]| l@),
            names == baseline_names@.map_values(|n: &str| n@),
            error_views(errors@) == all_baseline_errors(lists, names, b as nat),
    {
        let chunks = chunks_list[b];
        let name = baseline_names[b];
        let ghost before = errors@;
        for j in 0..chunks.len()
            invariant
                chunks@ == lists[b as int],
                name@ == names[b as int],
                error_views(errors@) == all_baseline_errors(lists, names, b as nat) + baseline_errors(chunks@.take(j as int), name@),
        {
            proof {
                assert(chunks@.take(j + 1).drop_last() =~= chunks@.take(j as int));
            }
            if !validate_chunk_source_ranges(&chunks[j]) {
                let mut msg = String::from_str("invalid source_ranges in ");
                msg.append(name);
                msg.append(" / ");
                msg.append(chunks[j].chunk_id.as_str());
                let ghost old_errors = errors@;
                errors.push((j, msg));
                proof {
                    assert(error_views(errors@) =~= error_views(old_errors).push((j, msg@)));
                }
            }
        }
        proof {
            assert(chunks@.take(chunks@.len() as int) =~= chunks@);
        }
    }
    errors
}

} // verus!
