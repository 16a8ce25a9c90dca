//! Benchmark data generation: where generated data and fixture sources
//! live, which files of a fixture are loaded, and the uniqueness check on
//! generated chunks.

use vstd::prelude::*;
use crate::bench_data::{ChunkData, QueryData, forward_slashes, normalize_path};
use crate::fixture::{FixtureCategory, FixtureSpec, category_dir};
use crate::paths::{join_spec, path_join};

verus! {

/// Directory of the generated data of one baseline and project under the
/// crate root: `{root}/data/benchmark/{baseline}/{project}/bge-m3`.
pub open spec fn data_dir_spec(manifest_dir: Seq<char>, baseline: Seq<char>, project: Seq<char>) -> Seq<char> {
    join_spec(join_spec(join_spec(join_spec(join_spec(manifest_dir, "data"@), "benchmark"@), baseline), project), "bge-m3"@)
}

pub fn data_dir(manifest_dir: &str, baseline: &str, project: &str) -> (res: String)
    ensures
        res@ == data_dir_spec(manifest_dir@, baseline@, project@),
{
    let a = path_join(manifest_dir, "data");
    let b = path_join(a.as_str(), "benchmark");
    let c = path_join(b.as_str(), baseline);
    let d = path_join(c.as_str(), project);
    path_join(d.as_str(), "bge-m3")
}

/// Source directory of a fixture under the crate root:
/// `{root}/fixtures/{category}[/{subdirectory}]`.
pub open spec fn fixture_source_spec(manifest_dir: Seq<char>, spec: FixtureSpec) -> Seq<char> {
    let base = join_spec(join_spec(manifest_dir, "fixtures"@), category_dir(spec.category));
    if spec.subdirectory@.len() == 0 {
        base
    } else {
        join_spec(base, spec.subdirectory@)
    }
}

pub fn fixture_source_path(manifest_dir: &str, spec: FixtureSpec) -> (res: String)
    ensures
        res@ == fixture_source_spec(manifest_dir@, spec),
{
    let root = path_join(manifest_dir, "fixtures");
    let base = path_join(root.as_str(), spec.category.dir_name());
    if spec.subdirectory.as_str().is_empty() {
        base
    } else {
        path_join(base.as_str(), spec.subdirectory.as_str())
    }
}

/// File extension loaded for a fixture category (`*` for every file);
/// none for the categories without a loading rule (C, Bash, Lua).
pub open spec fn fixture_extension_spec(category: FixtureCategory) -> Option<Seq<char>> {
    match category {
        FixtureCategory::Rust => Some("rs"@),
        FixtureCategory::Python => Some("py"@),
        FixtureCategory::Java => Some("java"@),
        FixtureCategory::TypeScript => Some("ts"@),
        FixtureCategory::CSharp => Some("cs"@),
        FixtureCategory::Cpp => Some("cpp"@),
        FixtureCategory::Go => Some("go"@),
        FixtureCategory::Kotlin => Some("kt"@),
        FixtureCategory::Scala => Some("scala"@),
        FixtureCategory::Php => Some("php"@),
        FixtureCategory::Ruby => Some("rb"@),
        FixtureCategory::Dart => Some("dart"@),
        FixtureCategory::JavaScript => Some("js"@),
        FixtureCategory::MultiLanguage => Some("*"@),
        FixtureCategory::Documents => Some("*"@),
        FixtureCategory::C => None,
        FixtureCategory::Bash => None,
        FixtureCategory::Lua => None,
    }
}

pub fn fixture_extension(category: FixtureCategory) -> (res: Option<&'static str>)
    ensures
        match res {
            Some(e) => fixture_extension_spec(category) == Some(e@),
            None => fixture_extension_spec(category) is None,
        },
{
    match category {
        FixtureCategory::Rust => Some("rs"),
        FixtureCategory::Python => Some("py"),
        FixtureCategory::Java => Some("java"),
        FixtureCategory::TypeScript => Some("ts"),
        FixtureCategory::CSharp => Some("cs"),
        FixtureCategory::Cpp => Some("cpp"),
        FixtureCategory::Go => Some("go"),
        FixtureCategory::Kotlin => Some("kt"),
        FixtureCategory::Scala => Some("scala"),
        FixtureCategory::Php => Some("php"),
        FixtureCategory::Ruby => Some("rb"),
        FixtureCategory::Dart => Some("dart"),
        FixtureCategory::JavaScript => Some("js"),
        FixtureCategory::MultiLanguage => Some("*"),
        FixtureCategory::Documents => Some("*"),
        FixtureCategory::C => None,
        FixtureCategory::Bash => None,
        FixtureCategory::Lua => None,
    }
}

/// Scanner include pattern of a fixture category: `*.` and its extension,
/// or `*` where every file counts; none where no rule exists (C, Bash, Lua).
pub open spec fn include_pattern_spec(category: FixtureCategory) -> Option<Seq<char>> {
    match category {
        FixtureCategory::Rust => Some("*.rs"@),
        FixtureCategory::Python => Some("*.py"@),
        FixtureCategory::Java => Some("*.java"@),
        FixtureCategory::TypeScript => Some("*.ts"@),
        FixtureCategory::CSharp => Some("*.cs"@),
        FixtureCategory::Cpp => Some("*.cpp"@),
        FixtureCategory::Go => Some("*.go"@),
        FixtureCategory::Kotlin => Some("*.kt"@),
        FixtureCategory::Scala => Some("*.scala"@),
        FixtureCategory::Php => Some("*.php"@),
        FixtureCategory::Ruby => Some("*.rb"@),
        FixtureCategory::Dart => Some("*.dart"@),
        FixtureCategory::JavaScript => Some("*.js"@),
        FixtureCategory::MultiLanguage => Some("*"@),
        FixtureCategory::Documents => Some("*"@),
        FixtureCategory::C => None,
        FixtureCategory::Bash => None,
        FixtureCategory::Lua => None,
    }
}

pub fn include_pattern(category: FixtureCategory) -> (res: Option<&'static str>)
    ensures
        match res {
            Some(p) => include_pattern_spec(category) == Some(p@),
            None => include_pattern_spec(category) is None,
        },
{
    match category {
        FixtureCategory::Rust => Some("*.rs"),
        FixtureCategory::Python => Some("*.py"),
        FixtureCategory::Java => Some("*.java"),
        FixtureCategory::TypeScript => Some("*.ts"),
        FixtureCategory::CSharp => Some("*.cs"),
        FixtureCategory::Cpp => Some("*.cpp"),
        FixtureCategory::Go => Some("*.go"),
        FixtureCategory::Kotlin => Some("*.kt"),
        FixtureCategory::Scala => Some("*.scala"),
        FixtureCategory::Php => Some("*.php"),
        FixtureCategory::Ruby => Some("*.rb"),
        FixtureCategory::Dart => Some("*.dart"),
        FixtureCategory::JavaScript => Some("*.js"),
        FixtureCategory::MultiLanguage => Some("*"),
        FixtureCategory::Documents => Some("*"),
        FixtureCategory::C => None,
        FixtureCategory::Bash => None,
        FixtureCategory::Lua => None,
    }
}

/// Path of a chunk's file as stored in benchmark data (backslashes turned
/// into forward slashes).
pub fn normalize_file_path(abs_path: &str) -> (res: String)
    ensures
        res@ == forward_slashes(abs_path@),
{
    normalize_path(abs_path)
}

/// Chunk `j` repeats the (file path, chunk id) pair of an earlier chunk.
pub open spec fn repeats_earlier(chunks: Seq<ChunkData>, j: int) -> bool {
    exists|i: int| 0 <= i < j && chunks[i].file_path@ == chunks[j].file_path@ && #[trigger] chunks[i].chunk_id@ == chunks[j].chunk_id@
}

/// Index of the first chunk whose (file path, chunk id) pair occurred
/// before it; none when every pair is unique.
pub fn first_duplicate_chunk(chunks: &[ChunkData]) -> (res: Option<usize>)
    ensures
        match res {
            Some(j) => j < chunks.len() && repeats_earlier(chunks@, j as int) && forall|k: int| 0 <= k < j ==> !repeats_earlier(chunks@, k),
            None => forall|k: int| 0 <= k < chunks.len() ==> !repeats_earlier(chunks@, k),
        },
{
    for j in 0..chunks.len()
        invariant
            forall|k: int| 0 <= k < j ==> !repeats_earlier(chunks@, k),
    {
        for i in 0..j
            invariant
                j < chunks.len(),
                forall|k: int| 0 <= k < j ==> !repeats_earlier(chunks@, k),
                forall|k: int| 0 <= k < i ==> !(chunks@[k].file_path@ == chunks@[j as int].file_path@ && chunks@[k].chunk_id@ == chunks@[j as int].chunk_id@),
        {
            if chunks[i].file_path == chunks[j].file_path && chunks[i].chunk_id == chunks[j].chunk_id {
                proof {
                    assert(chunks@[i as int].chunk_id@ == chunks@[j as int].chunk_id@);
                }
                return Some(j);
            }
        }
    }
    None
}

/// Project-level configuration for benchmark data generation.
pub struct ProjectConfig {
    pub name: &'static str,
    pub target_spec: FixtureSpec,
    pub distractor_spec: FixtureSpec,
    pub queries: Vec<QueryData>,
}

} // verus!
