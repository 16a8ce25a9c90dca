//! Plain-text display export of the natural-language conversion: where the
//! text documents of each retrieval path are written.

use vstd::prelude::*;
use crate::bench_data::{forward_slashes, normalize_path};
use crate::paths::{join_spec, path_join};
use crate::text::{chars_of, push_char};

verus! {

/// Retrieval path a chunk belongs to.
#[derive(Debug, Clone, Copy, PartialEq, Eq, Structural)]
pub enum ChunkPath {
    Bm25,
    Embedding,
}

/// Export result of the plain-text display output.
#[derive(Debug, Clone, Default)]
pub struct NlTextExportResult {
    /// Number of files exported.
    pub exported_count: usize,
    /// Failed files with the reason.
    pub failed: Vec<(String, String)>,
    /// Output paths.
    pub output_paths: Vec<String>,
}

/// Plain-text exporter of the natural-language conversion.
pub struct NlTextDocumentExporter {
    project_root: String,
    export_bm25: bool,
    export_embedding: bool,
}

impl NlTextDocumentExporter {
    pub closed spec fn root_spec(&self) -> Seq<char> {
        self.project_root@
    }

    pub closed spec fn bm25_spec(&self) -> bool {
        self.export_bm25
    }

    pub closed spec fn embedding_spec(&self) -> bool {
        self.export_embedding
    }

    /// An exporter for both the BM25 and the embedding path.
    pub fn new(project_root: &str) -> (res: Self)
        ensures
            res.root_spec() == project_root@,
            res.bm25_spec(),
            res.embedding_spec(),
    {
        NlTextDocumentExporter { project_root: String::from_str(project_root), export_bm25: true, export_embedding: true }
    }

    /// An exporter for the embedding path only.
    pub fn embedding_only(project_root: &str) -> (res: Self)
        ensures
            res.root_spec() == project_root@,
            !res.bm25_spec(),
            res.embedding_spec(),
    {
        NlTextDocumentExporter { project_root: String::from_str(project_root), export_bm25: false, export_embedding: true }
    }

    /// An exporter for the BM25 path only.
    pub fn bm25_only(project_root: &str) -> (res: Self)
        ensures
            res.root_spec() == project_root@,
            res.bm25_spec(),
            !res.embedding_spec(),
    {
        NlTextDocumentExporter { project_root: String::from_str(project_root), export_bm25: true, export_embedding: false }
    }

    /// Output directory of the display files: `{root}/.cce/` and
    /// `nl_text_docs_bm25` or `nl_text_docs_emb` when one path is exported,
    /// `nl_text_docs` otherwise.
    pub fn output_dir(&self) -> (res: String)
        ensures
            res@ == join_spec(join_spec(self.root_spec(), ".cce"@), if self.bm25_spec() && !self.embedding_spec() {
                "nl_text_docs_bm25"@
            } else if !self.bm25_spec() && self.embedding_spec() {
                "nl_text_docs_emb"@
            } else {
                "nl_text_docs"@
            }),
    {
        let base = path_join(self.project_root.as_str(), ".cce");
        let sub = if self.export_bm25 && !self.export_embedding {
            "nl_text_docs_bm25"
        } else if !self.export_bm25 && self.export_embedding {
            "nl_text_docs_emb"
        } else {
            "nl_text_docs"
        };
        path_join(base.as_str(), sub)
    }

    /// `{root}/.cce/nl_text_docs_bm25`.
    pub fn bm25_output_dir(&self) -> (res: String)
        ensures
            res@ == join_spec(join_spec(self.root_spec(), ".cce"@), "nl_text_docs_bm25"@),
    {
        let base = path_join(self.project_root.as_str(), ".cce");
        path_join(base.as_str(), "nl_text_docs_bm25")
    }

    /// `{root}/.cce/nl_text_docs_emb`.
    pub fn embedding_output_dir(&self) -> (res: String)
        ensures
            res@ == join_spec(join_spec(self.root_spec(), ".cce"@), "nl_text_docs_emb"@),
    {
        let base = path_join(self.project_root.as_str(), ".cce");
        path_join(base.as_str(), "nl_text_docs_emb")
    }

    pub fn is_exporting_bm25(&self) -> (res: bool)
        ensures
            res == self.bm25_spec(),
    {
        self.export_bm25
    }

    pub fn is_exporting_embedding(&self) -> (res: bool)
        ensures
            res == self.embedding_spec(),
    {
        self.export_embedding
    }

    /// The path a single-path exporter keeps; none when both or neither
    /// are exported.
    pub fn default_filter_path(&self) -> (res: Option<ChunkPath>)
        ensures
            res == if self.bm25_spec() && !self.embedding_spec() {
                Some(ChunkPath::Bm25)
            } else if !self.bm25_spec() && self.embedding_spec() {
                Some(ChunkPath::Embedding)
            } else {
                None
            },
    {
        if self.export_bm25 && !self.export_embedding {
            Some(ChunkPath::Bm25)
        } else if !self.export_bm25 && self.export_embedding {
            Some(ChunkPath::Embedding)
        } else {
            None
        }
    }

    /// Source path relative to the project root when it lies under it (both
    /// with forward slashes, the root without trailing slashes, the source
    /// without leading `//?/` prefixes, the relative part without leading
    /// slashes and non-empty); otherwise the source path unchanged.
    pub fn relative_source_path(&self, source_path: &str) -> (res: String)
        ensures
            res@ == relative_source_spec(self.root_spec(), source_path@),
    {
        let root_norm = normalize_path(self.project_root.as_str());
        let root = chars_of(root_norm.as_str());
        let root_end = trimmed_len(root.as_slice());
        let src_norm = normalize_path(source_path);
        let src = chars_of(src_norm.as_str());
        let start = unc_end(src.as_slice());
        let ghost r = root@.take(root_end as int);
        let ghost t = src@.skip(start as int);
        if has_prefix_at(src.as_slice(), start, root.as_slice(), root_end) {
            let rel = slashes_end(src.as_slice(), start + root_end);
            proof {
                lemma_trim_slashes_at(t.skip(r.len() as int), rel - start - root_end);
                assert(t.skip(r.len() as int).skip(rel - start - root_end) =~= src@.skip(rel as int));
            }
            if rel < src.len() {
                return copy_from(src.as_slice(), rel);
            }
        }
        String::from_str(source_path)
    }
}

/// Length of `s` without its trailing slashes.
fn trimmed_len(s: &[char]) -> (res: usize)
    ensures
        res <= s.len(),
        s@.take(res as int) == trim_trailing_slashes(s@),
{
    let mut end = s.len();
    proof {
        assert(s@.take(s.len() as int) =~= s@);
    }
    while end > 0 && s[end - 1] == '/'
        invariant
            end <= s.len(),
            trim_trailing_slashes(s@) == trim_trailing_slashes(s@.take(end as int)),
        decreases end,
    {
        proof {
            assert(s@.take(end as int).drop_last() =~= s@.take(end - 1));
        }
        end = end - 1;
    }
    proof {
        if end == 0 {
            assert(s@.take(0) =~= Seq::<char>::empty());
        }
    }
    end
}

/// Position after the leading `//?/` prefixes of `s`.
fn unc_end(s: &[char]) -> (res: usize)
    ensures
        res <= s.len(),
        s@.skip(res as int) == trim_unc(s@),
{
    let mut start: usize = 0;
    proof {
        assert(s@.skip(0) =~= s@);
    }
    while s.len() >= 4 && start <= s.len() - 4 && s[start] == '/' && s[start + 1] == '/' && s[start + 2] == '?' && s[start + 3] == '/'
        invariant
            start <= s.len(),
            trim_unc(s@) == trim_unc(s@.skip(start as int)),
        decreases s.len() - start,
    {
        proof {
            assert(s@.skip(start as int).skip(4) =~= s@.skip(start + 4));
        }
        start = start + 4;
    }
    start
}

/// Whether `s` continues at `start` with the first `n` characters of `p`.
fn has_prefix_at(s: &[char], start: usize, p: &[char], n: usize) -> (res: bool)
    requires
        start <= s.len(),
        n <= p.len(),
    ensures
        res == (n <= s.len() - start && s@.skip(start as int).take(n as int) == p@.take(n as int)),
{
    if n > s.len() - start {
        return false;
    }
    let mut k: usize = 0;
    while k < n
        invariant
            k <= n,
            n <= p.len(),
            start + n <= s.len(),
            forall|m: int| 0 <= m < k ==> s@[start + m] == p@[m],
        decreases n - k,
    {
        if s[start + k] != p[k] {
            proof {
                assert(s@.skip(start as int).take(n as int)[k as int] != p@.take(n as int)[k as int]);
            }
            return false;
        }
        k = k + 1;
    }
    proof {
        assert(s@.skip(start as int).take(n as int) =~= p@.take(n as int));
    }
    true
}

/// First position at or after `from` that is not a slash.
fn slashes_end(s: &[char], from: usize) -> (res: usize)
    requires
        from <= s.len(),
    ensures
        from <= res <= s.len(),
        forall|m: int| from <= m < res ==> s@[m] == '/',
        res == s.len() || s@[res as int] != '/',
{
    let mut k = from;
    while k < s.len() && s[k] == '/'
        invariant
            from <= k <= s.len(),
            forall|m: int| from <= m < k ==> s@[m] == '/',
        decreases s.len() - k,
    {
        k = k + 1;
    }
    k
}

/// The characters of `s` from `from` on.
fn copy_from(s: &[char], from: usize) -> (res: String)
    requires
        from <= s.len(),
    ensures
        res@ == s@.skip(from as int),
{
    let mut res = String::new();
    let mut m = from;
    while m < s.len()
        invariant
            from <= m <= s.len(),
            res@ == s@.subrange(from as int, m as int),
        decreases s.len() - m,
    {
        push_char(&mut res, s[m]);
        m = m + 1;
        proof {
            assert(res@ =~= s@.subrange(from as int, m as int));
        }
    }
    proof {
        assert(res@ =~= s@.skip(from as int));
    }
    res
}

/// `s` without trailing slashes.
pub open spec fn trim_trailing_slashes(s: Seq<char>) -> Seq<char>
    decreases s.len(),
{
    if s.len() > 0 && s.last() == '/' {
        trim_trailing_slashes(s.drop_last())
    } else {
        s
    }
}

/// `s` without leading slashes.
pub open spec fn trim_leading_slashes(s: Seq<char>) -> Seq<char>
    decreases s.len(),
{
    if s.len() > 0 && s[0] == '/' {
        trim_leading_slashes(s.drop_first())
    } else {
        s
    }
}

/// `s` without leading `//?/` prefixes.
pub open spec fn trim_unc(s: Seq<char>) -> Seq<char>
    decreases s.len(),
{
    if s.len() >= 4 && s[0] == '/' && s[1] == '/' && s[2] == '?' && s[3] == '/' {
        trim_unc(s.skip(4))
    } else {
        s
    }
}

/// Path of a source file relative to the project root, or the source path
/// unchanged when it does not lie under the root.
pub open spec fn relative_source_spec(root: Seq<char>, source: Seq<char>) -> Seq<char> {
    let r = trim_trailing_slashes(forward_slashes(root));
    let s = trim_unc(forward_slashes(source));
    if r.len() <= s.len() && s.take(r.len() as int) == r && trim_leading_slashes(s.skip(r.len() as int)).len() > 0 {
        trim_leading_slashes(s.skip(r.len() as int))
    } else {
        source
    }
}

proof fn lemma_trim_slashes_at(s: Seq<char>, k: int)
    requires
        0 <= k <= s.len(),
        forall|m: int| 0 <= m < k ==> s[m] == '/',
        k == s.len() || s[k] != '/',
    ensures
        trim_leading_slashes(s) == s.skip(k),
    decreases k,
{
    if k > 0 {
        assert(s.drop_first().skip(k - 1) =~= s.skip(k));
        lemma_trim_slashes_at(s.drop_first(), k - 1);
    } else {
        assert(s.skip(0) =~= s);
    }
}

} // verus!
