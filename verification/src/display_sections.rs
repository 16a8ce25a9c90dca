//! Display sections of the plain-text export: the chunks of each source
//! group become one section (code texts, natural-language texts, keywords
//! and the group's metadata), sections are ordered by start line, and a
//! section repeated under another group keeps only its richest copy.
//! Chunks are first grouped by their source group, and the sections are
//! rendered into the file's display document.

use vstd::prelude::*;
use crate::nl_text_exporter::ChunkPath;
use crate::text::{chars_of, decimal_chars, join_strings, joined, push_char, push_str, push_u64, push_usize, string_views, trim_chars, trim_spec};
use crate::mock_embedding_server::{lowercase_chars, to_lowercase};

verus! {

/// One chunk of a source group as the display needs it.
pub struct DisplayChunk {
    /// Retrieval path of the chunk.
    pub path: ChunkPath,
    /// Display name of the retrieval path.
    pub path_name: String,
    /// Position of the chunk within its group and path.
    pub chunk_index: usize,
    /// Converted text.
    pub text: String,
    /// BM25 title (the entity name), if any.
    pub bm25_title: Option<String>,
    /// 1-based first and last source line, when the span is known.
    pub line_range: Option<(usize, usize)>,
    /// Group type name.
    pub group_type: String,
    /// Entity kind name, present when the chunk carries code metadata.
    pub entity_kind: Option<String>,
    /// (0-based fragment index, total fragments) of a fragment chunk.
    pub fragment: Option<(usize, usize)>,
    /// Split reason name, present when the chunk carries code metadata.
    pub split_reason: Option<String>,
    /// BM25 keywords.
    pub keywords: Vec<String>,
    /// Related groups: (group id, relation type, strength), the strength
    /// given by the bit pattern of its `f32` value.
    pub related: Vec<(String, String, u32)>,
}

/// One display section.
pub struct DisplaySection {
    pub entity_name: String,
    pub line_info: String,
    pub code_texts: Vec<String>,
    pub nl_texts: Vec<String>,
    pub keywords: Vec<String>,
    pub start_line: usize,
    pub group_type: String,
    pub entity_kind: String,
    pub fragment_info: Option<String>,
    pub split_reason: Option<String>,
    /// Distinct retrieval path names of the group, in string order.
    pub chunk_paths: Vec<String>,
    pub related_groups: Vec<(String, String, u32)>,
}

/// A display section as values.
pub struct SectionView {
    pub entity_name: Seq<char>,
    pub line_info: Seq<char>,
    pub code_texts: Seq<Seq<char>>,
    pub nl_texts: Seq<Seq<char>>,
    pub keywords: Seq<Seq<char>>,
    pub start_line: usize,
    pub group_type: Seq<char>,
    pub entity_kind: Seq<char>,
    pub fragment_info: Option<Seq<char>>,
    pub split_reason: Option<Seq<char>>,
    pub chunk_paths: Seq<Seq<char>>,
    pub related_groups: Seq<(Seq<char>, Seq<char>, u32)>,
}

pub open spec fn opt_chars(o: Option<String>) -> Option<Seq<char>> {
    match o {
        Some(s) => Some(s@),
        None => None,
    }
}

pub open spec fn related_view(r: (String, String, u32)) -> (Seq<char>, Seq<char>, u32) {
    (r.0@, r.1@, r.2)
}

pub open spec fn related_views(rs: Seq<(String, String, u32)>) -> Seq<(Seq<char>, Seq<char>, u32)> {
    rs.map_values(|r: (String, String, u32)| related_view(r))
}

pub open spec fn section_view(s: DisplaySection) -> SectionView {
    SectionView {
        entity_name: s.entity_name@,
        line_info: s.line_info@,
        code_texts: string_views(s.code_texts@),
        nl_texts: string_views(s.nl_texts@),
        keywords: string_views(s.keywords@),
        start_line: s.start_line,
        group_type: s.group_type@,
        entity_kind: s.entity_kind@,
        fragment_info: opt_chars(s.fragment_info),
        split_reason: opt_chars(s.split_reason),
        chunk_paths: string_views(s.chunk_paths@),
        related_groups: related_views(s.related_groups@),
    }
}

pub open spec fn section_views(s: Seq<DisplaySection>) -> Seq<SectionView> {
    s.map_values(|x: DisplaySection| section_view(x))
}

// ---------------------------------------------------------------------
// Stable insertion sort, as a definition.

/// `x` inserted into `sorted` after every element not above it.
pub open spec fn insert_stable<T>(sorted: Seq<T>, x: T, le: spec_fn(T, T) -> bool) -> Seq<T>
    decreases sorted.len(),
{
    if sorted.len() == 0 {
        seq![x]
    } else if le(sorted.last(), x) {
        sorted.push(x)
    } else {
        insert_stable(sorted.drop_last(), x, le).push(sorted.last())
    }
}

/// The stable sort of `s` under the order `le`.
pub open spec fn sort_stable<T>(s: Seq<T>, le: spec_fn(T, T) -> bool) -> Seq<T>
    decreases s.len(),
{
    if s.len() == 0 {
        s
    } else {
        insert_stable(sort_stable(s.drop_last(), le), s.last(), le)
    }
}

// ---------------------------------------------------------------------
// Per-group pieces.

/// The chunks on retrieval path `p`, in order.
pub open spec fn on_path(cs: Seq<DisplayChunk>, p: ChunkPath) -> Seq<DisplayChunk>
    decreases cs.len(),
{
    if cs.len() == 0 {
        cs
    } else if cs.last().path == p {
        on_path(cs.drop_last(), p).push(cs.last())
    } else {
        on_path(cs.drop_last(), p)
    }
}

/// Chunks shown as code: the BM25 chunks unless only the embedding path
/// is displayed.
pub open spec fn code_chunks(cs: Seq<DisplayChunk>, filter: Option<ChunkPath>) -> Seq<DisplayChunk> {
    match filter {
        Some(ChunkPath::Embedding) => Seq::empty(),
        _ => on_path(cs, ChunkPath::Bm25),
    }
}

/// Chunks shown as natural language: none when only BM25 is displayed,
/// the embedding chunks when only they are, and otherwise the embedding
/// chunks or, when there are none, the BM25 chunks.
pub open spec fn nl_chunks(cs: Seq<DisplayChunk>, filter: Option<ChunkPath>) -> Seq<DisplayChunk> {
    match filter {
        Some(ChunkPath::Bm25) => Seq::empty(),
        Some(ChunkPath::Embedding) => on_path(cs, ChunkPath::Embedding),
        None => if on_path(cs, ChunkPath::Embedding).len() > 0 {
            on_path(cs, ChunkPath::Embedding)
        } else {
            on_path(cs, ChunkPath::Bm25)
        },
    }
}

pub open spec fn index_le() -> spec_fn(DisplayChunk, DisplayChunk) -> bool {
    |a: DisplayChunk, b: DisplayChunk| a.chunk_index <= b.chunk_index
}

/// Trimmed, non-empty texts of the chunks, in order.
pub open spec fn chunk_texts(cs: Seq<DisplayChunk>) -> Seq<Seq<char>>
    decreases cs.len(),
{
    if cs.len() == 0 {
        Seq::empty()
    } else if trim_spec(cs.last().text@).len() > 0 {
        chunk_texts(cs.drop_last()).push(trim_spec(cs.last().text@))
    } else {
        chunk_texts(cs.drop_last())
    }
}

/// Every BM25 keyword of the chunks, in order.
pub open spec fn all_keywords(cs: Seq<DisplayChunk>) -> Seq<Seq<char>>
    decreases cs.len(),
{
    if cs.len() == 0 {
        Seq::empty()
    } else {
        all_keywords(cs.drop_last()) + string_views(cs.last().keywords@)
    }
}

/// The first keyword of each lower-case form, in order.
pub open spec fn dedup_lower(ks: Seq<Seq<char>>) -> Seq<Seq<char>>
    decreases ks.len(),
{
    if ks.len() == 0 {
        ks
    } else if ks.drop_last().map_values(|k: Seq<char>| lowercase_chars(k)).contains(lowercase_chars(ks.last())) {
        dedup_lower(ks.drop_last())
    } else {
        dedup_lower(ks.drop_last()).push(ks.last())
    }
}

/// Position `t` holds the first keyword of its lower-case form.
pub open spec fn first_of_lower(ks: Seq<Seq<char>>, t: int) -> bool {
    forall|j: int| 0 <= j < t ==> lowercase_chars(#[trigger] ks[j]) != lowercase_chars(ks[t])
}

/// Some keyword of `r` has the lower-case form of `k`.
pub open spec fn has_lower(r: Seq<Seq<char>>, k: Seq<char>) -> bool {
    exists|a: int| 0 <= a < r.len() && lowercase_chars(#[trigger] r[a]) == lowercase_chars(k)
}

/// Keyword deduplication keeps, for each lower-case form, its first keyword:
/// the kept keywords differ in lower case, every input keyword's lower-case
/// form is kept, and each kept keyword is the first input keyword of its
/// lower-case form.
pub proof fn lemma_dedup_lower_law(ks: Seq<Seq<char>>)
    ensures
        forall|a: int, b: int| 0 <= a < b < dedup_lower(ks).len()
            ==> lowercase_chars(#[trigger] dedup_lower(ks)[a]) != lowercase_chars(#[trigger] dedup_lower(ks)[b]),
        forall|j: int| 0 <= j < ks.len() ==> has_lower(dedup_lower(ks), #[trigger] ks[j]),
        forall|a: int| 0 <= a < dedup_lower(ks).len() ==> exists|t: int|
            0 <= t < ks.len() && #[trigger] ks[t] == #[trigger] dedup_lower(ks)[a] && first_of_lower(ks, t),
    decreases ks.len(),
{
    if ks.len() > 0 {
        let d = ks.drop_last();
        let x = ks.last();
        let n = ks.len() as int;
        lemma_dedup_lower_law(d);
        let p = dedup_lower(d);
        let r = dedup_lower(ks);
        let low = d.map_values(|k: Seq<char>| lowercase_chars(k));
        assert forall|j: int| 0 <= j < n - 1 implies #[trigger] d[j] == ks[j] by {}
        assert(ks[n - 1] == x);
        let seen = low.contains(lowercase_chars(x));
        if seen {
            assert(r == p);
            let w = choose|w: int| 0 <= w < low.len() && low[w] == lowercase_chars(x);
            assert(low[w] == lowercase_chars(d[w]));
            assert(has_lower(p, d[w]));
            assert forall|j: int| 0 <= j < n implies has_lower(r, #[trigger] ks[j]) by {
                if j < n - 1 {
                    assert(has_lower(p, d[j]));
                } else {
                    let a = choose|a: int| 0 <= a < p.len() && lowercase_chars(#[trigger] p[a]) == lowercase_chars(d[w]);
                    assert(lowercase_chars(r[a]) == lowercase_chars(ks[j]));
                }
            }
        } else {
            assert(r == p.push(x));
            assert forall|j: int| 0 <= j < n - 1 implies lowercase_chars(#[trigger] ks[j]) != lowercase_chars(x) by {
                assert(low[j] == lowercase_chars(d[j]));
            }
            assert forall|a: int, b: int| 0 <= a < b < r.len()
                implies lowercase_chars(#[trigger] r[a]) != lowercase_chars(#[trigger] r[b]) by {
                assert(r[a] == p[a]);
                if b < p.len() {
                    assert(r[b] == p[b]);
                } else {
                    let t = choose|t: int| 0 <= t < d.len() && #[trigger] d[t] == #[trigger] p[a] && first_of_lower(d, t);
                    assert(lowercase_chars(ks[t]) != lowercase_chars(x));
                }
            }
            assert forall|j: int| 0 <= j < n implies has_lower(r, #[trigger] ks[j]) by {
                if j < n - 1 {
                    assert(has_lower(p, d[j]));
                    let a = choose|a: int| 0 <= a < p.len() && lowercase_chars(#[trigger] p[a]) == lowercase_chars(d[j]);
                    assert(r[a] == p[a]);
                } else {
                    assert(r[p.len() as int] == x);
                }
            }
            assert(first_of_lower(ks, n - 1));
        }
        assert forall|a: int| 0 <= a < r.len() implies exists|t: int|
            0 <= t < ks.len() && #[trigger] ks[t] == #[trigger] r[a] && first_of_lower(ks, t) by {
            if a < p.len() {
                assert(r[a] == p[a]);
                let t = choose|t: int| 0 <= t < d.len() && #[trigger] d[t] == #[trigger] p[a] && first_of_lower(d, t);
                assert(ks[t] == r[a]);
                assert forall|j: int| 0 <= j < t implies lowercase_chars(#[trigger] ks[j]) != lowercase_chars(ks[t]) by {
                    assert(d[j] == ks[j]);
                }
            } else {
                assert(r[a] == ks[n - 1]);
            }
        }
    }
}

/// The first present title, or the empty name.
pub open spec fn first_title(cs: Seq<DisplayChunk>) -> Seq<char>
    decreases cs.len(),
{
    if cs.len() == 0 {
        Seq::empty()
    } else if cs[0].bm25_title is Some {
        cs[0].bm25_title->0@
    } else {
        first_title(cs.drop_first())
    }
}

/// The first present entity kind, or the empty name.
pub open spec fn first_kind(cs: Seq<DisplayChunk>) -> Seq<char>
    decreases cs.len(),
{
    if cs.len() == 0 {
        Seq::empty()
    } else if cs[0].entity_kind is Some {
        cs[0].entity_kind->0@
    } else {
        first_kind(cs.drop_first())
    }
}

/// The first fragment position of the chunks, if any.
pub open spec fn first_fragment(cs: Seq<DisplayChunk>) -> Option<(usize, usize)>
    decreases cs.len(),
{
    if cs.len() == 0 {
        None
    } else if cs[0].fragment is Some {
        cs[0].fragment
    } else {
        first_fragment(cs.drop_first())
    }
}

/// The first present split reason, if any.
pub open spec fn first_split(cs: Seq<DisplayChunk>) -> Option<Seq<char>>
    decreases cs.len(),
{
    if cs.len() == 0 {
        None
    } else if cs[0].split_reason is Some {
        opt_chars(cs[0].split_reason)
    } else {
        first_split(cs.drop_first())
    }
}

/// `line N`, `lines N-M`, or `source range unavailable`.
pub open spec fn line_info_spec(r: Option<(usize, usize)>) -> Seq<char> {
    match r {
        None => "source range unavailable"@,
        Some((s, e)) => if s == e {
            "line "@ + decimal_chars(s as nat)
        } else {
            "lines "@ + decimal_chars(s as nat) + "-"@ + decimal_chars(e as nat)
        },
    }
}

/// `fragment {index + 1}/{total}`.
pub open spec fn fragment_spec(f: Option<(usize, usize)>) -> Option<Seq<char>> {
    match f {
        None => None,
        Some((i, t)) => Some("fragment "@ + decimal_chars((i + 1) as nat) + "/"@ + decimal_chars(t as nat)),
    }
}

/// The path names of the chunks, in order.
pub open spec fn path_names(cs: Seq<DisplayChunk>) -> Seq<Seq<char>> {
    cs.map_values(|c: DisplayChunk| c.path_name@)
}

pub open spec fn name_le() -> spec_fn(Seq<char>, Seq<char>) -> bool {
    |a: Seq<char>, b: Seq<char>| chars_le(a, b)
}

/// The distinct path names of the chunks, in string order.
pub open spec fn paths_spec(cs: Seq<DisplayChunk>) -> Seq<Seq<char>> {
    dedup_adjacent(sort_stable(path_names(cs), name_le()))
}

/// Every related group of the chunks, in order.
pub open spec fn all_related(cs: Seq<DisplayChunk>) -> Seq<(Seq<char>, Seq<char>, u32)>
    decreases cs.len(),
{
    if cs.len() == 0 {
        Seq::empty()
    } else {
        all_related(cs.drop_last()) + related_views(cs.last().related@)
    }
}

/// Lexicographic order of character sequences (the order of `String`).
pub open spec fn chars_le(a: Seq<char>, b: Seq<char>) -> bool
    decreases a.len(),
{
    if a.len() == 0 {
        true
    } else if b.len() == 0 {
        false
    } else if a[0] != b[0] {
        (a[0] as u32) < (b[0] as u32)
    } else {
        chars_le(a.drop_first(), b.drop_first())
    }
}

pub open spec fn related_le() -> spec_fn((Seq<char>, Seq<char>, u32), (Seq<char>, Seq<char>, u32)) -> bool {
    |a: (Seq<char>, Seq<char>, u32), b: (Seq<char>, Seq<char>, u32)| chars_le(a.0, b.0)
}

/// `s` without elements equal to their predecessor.
pub open spec fn dedup_adjacent<T>(s: Seq<T>) -> Seq<T>
    decreases s.len(),
{
    if s.len() <= 1 {
        s
    } else if s.last() == s[s.len() - 2] {
        dedup_adjacent(s.drop_last())
    } else {
        dedup_adjacent(s.drop_last()).push(s.last())
    }
}

/// The section of one group, none when it has neither code nor
/// natural-language chunks.
pub open spec fn group_section(cs: Seq<DisplayChunk>, filter: Option<ChunkPath>, include_keywords: bool) -> Option<SectionView> {
    if code_chunks(cs, filter).len() == 0 && nl_chunks(cs, filter).len() == 0 {
        None
    } else {
        Some(SectionView {
            entity_name: first_title(cs),
            line_info: line_info_spec(cs[0].line_range),
            code_texts: chunk_texts(sort_stable(code_chunks(cs, filter), index_le())),
            nl_texts: chunk_texts(sort_stable(nl_chunks(cs, filter), index_le())),
            keywords: if include_keywords { dedup_lower(all_keywords(cs)) } else { Seq::empty() },
            start_line: match cs[0].line_range {
                Some((s, _)) => s,
                None => 0,
            },
            group_type: cs[0].group_type@,
            entity_kind: first_kind(cs),
            fragment_info: fragment_spec(first_fragment(cs)),
            split_reason: first_split(cs),
            chunk_paths: paths_spec(cs),
            related_groups: dedup_adjacent(sort_stable(all_related(cs), related_le())),
        })
    }
}

/// The sections of the groups in group order (groups without content
/// dropped).
pub open spec fn sections_spec(groups: Seq<(String, Vec<DisplayChunk>)>, filter: Option<ChunkPath>, include_keywords: bool) -> Seq<SectionView>
    decreases groups.len(),
{
    if groups.len() == 0 {
        Seq::empty()
    } else {
        let prev = sections_spec(groups.drop_last(), filter, include_keywords);
        match group_section(groups.last().1@, filter, include_keywords) {
            Some(s) => prev.push(s),
            None => prev,
        }
    }
}

pub open spec fn start_le() -> spec_fn(SectionView, SectionView) -> bool {
    |a: SectionView, b: SectionView| a.start_line <= b.start_line
}

pub open spec fn sort_by_start(s: Seq<SectionView>) -> Seq<SectionView> {
    sort_stable(s, start_le())
}

/// UTF-8 length of a text as `str::len` reports it.
pub open spec fn str_bytes(t: Seq<char>) -> nat {
    (vstd::utf8::encode_utf8(t).len() as usize) as nat
}

/// `n` capped at `usize::MAX`.
pub open spec fn cap(n: nat) -> nat {
    if n > usize::MAX { usize::MAX as nat } else { n }
}

/// Sections with the same entity name and line information.
pub open spec fn same_key(a: SectionView, b: SectionView) -> bool {
    a.entity_name == b.entity_name && a.line_info == b.line_info
}

/// Sum of the UTF-8 lengths of the texts.
pub open spec fn bytes_total(ts: Seq<Seq<char>>) -> nat
    decreases ts.len(),
{
    if ts.len() == 0 {
        0
    } else {
        bytes_total(ts.drop_last()) + str_bytes(ts.last())
    }
}

/// Richness of a section: the UTF-8 length of its code texts,
/// natural-language texts and keywords, capped at `usize::MAX`.
pub open spec fn section_score(s: SectionView) -> nat {
    cap(bytes_total(s.code_texts) + bytes_total(s.nl_texts) + bytes_total(s.keywords))
}

/// Position of the first section with the same entity name and line
/// information as `x`, if any.
pub open spec fn key_position(s: Seq<SectionView>, x: SectionView) -> Option<int>
    decreases s.len(),
{
    if s.len() == 0 {
        None
    } else {
        match key_position(s.drop_last(), x) {
            Some(i) => Some(i),
            None => if same_key(s.last(), x) {
                Some(s.len() - 1)
            } else {
                None
            },
        }
    }
}

/// One section per (entity name, line information): the one with the
/// highest score (the first among equals), at the place of the key's first
/// section.
pub open spec fn dedup_sections(s: Seq<SectionView>) -> Seq<SectionView>
    decreases s.len(),
{
    if s.len() == 0 {
        s
    } else {
        let prev = dedup_sections(s.drop_last());
        match key_position(prev, s.last()) {
            Some(i) => if section_score(s.last()) > section_score(prev[i]) {
                prev.update(i, s.last())
            } else {
                prev
            },
            None => prev.push(s.last()),
        }
    }
}

// ---------------------------------------------------------------------
// Executable pieces.

proof fn lemma_encode_nonempty(s: Seq<char>)
    ensures
        s.len() > 0 ==> vstd::utf8::encode_utf8(s).len() > 0,
{
    if s.len() > 0 {
        assert(vstd::utf8::encode_scalar(s[0] as u32).len() >= 1);
    }
}

/// A new string holding `s`.
fn copy_string(s: &String) -> (res: String)
    ensures
        res@ == s@,
{
    String::from_str(s.as_str())
}

/// `s` without leading and trailing white space.
fn trimmed(s: &str) -> (res: String)
    ensures
        res@ == trim_spec(s@),
{
    let c = chars_of(s);
    let t = trim_chars(c.as_slice(), 0, c.len());
    proof {
        assert(c@.subrange(0, c.len() as int) =~= c@);
    }
    let mut res = String::new();
    for k in 0..t.len()
        invariant
            res@ == t@.take(k as int),
    {
        push_char(&mut res, t[k]);
        proof {
            assert(res@ =~= t@.take(k + 1));
        }
    }
    proof {
        assert(t@.take(t.len() as int) =~= t@);
    }
    res
}

pub open spec fn chunks_at(cs: Seq<DisplayChunk>, idx: Seq<usize>) -> Seq<DisplayChunk> {
    idx.map_values(|i: usize| cs[i as int])
}

pub open spec fn indices_below(idx: Seq<usize>, n: nat) -> bool {
    forall|j: int| 0 <= j < idx.len() ==> (#[trigger] idx[j]) < n
}

/// Indices of the chunks on path `p`, in order.
fn select_path(cs: &[DisplayChunk], p: ChunkPath) -> (idx: Vec<usize>)
    ensures
        indices_below(idx@, cs.len() as nat),
        chunks_at(cs@, idx@) == on_path(cs@, p),
{
    let mut idx: Vec<usize> = Vec::new();
    for i in 0..cs.len()
        invariant
            indices_below(idx@, cs.len() as nat),
            chunks_at(cs@, idx@) == on_path(cs@.take(i as int), p),
    {
        proof {
            assert(cs@.take(i + 1).drop_last() =~= cs@.take(i as int));
        }
        let ghost before = idx@;
        if cs[i].path == p {
            idx.push(i);
            proof {
                assert(chunks_at(cs@, idx@) =~= chunks_at(cs@, before).push(cs@[i as int]));
            }
        }
    }
    proof {
        assert(cs@.take(cs.len() as int) =~= cs@);
    }
    idx
}

/// Inserts chunk `i` into an index list sorted by chunk index, after every
/// chunk not above it.
fn insert_by_index(v: &mut Vec<usize>, i: usize, cs: &[DisplayChunk])
    requires
        indices_below(old(v)@, cs.len() as nat),
        i < cs.len(),
    ensures
        indices_below(final(v)@, cs.len() as nat),
        chunks_at(cs@, final(v)@) == insert_stable(chunks_at(cs@, old(v)@), cs@[i as int], index_le()),
    decreases old(v).len(),
{
    let ghost v0 = v@;
    if v.len() == 0 {
        v.push(i);
        proof {
            assert(chunks_at(cs@, v@) =~= seq![cs@[i as int]]);
        }
    } else {
        let last = v[v.len() - 1];
        if cs[last].chunk_index <= cs[i].chunk_index {
            v.push(i);
            proof {
                assert(chunks_at(cs@, v@) =~= chunks_at(cs@, v0).push(cs@[i as int]));
            }
        } else {
            let l = v.pop().unwrap();
            proof {
                assert(v@ =~= v0.drop_last());
                assert(chunks_at(cs@, v@) =~= chunks_at(cs@, v0).drop_last());
            }
            let ghost mid = v@;
            insert_by_index(v, i, cs);
            let ghost after = v@;
            v.push(l);
            proof {
                assert(chunks_at(cs@, v@) =~= chunks_at(cs@, after).push(cs@[l as int]));
            }
        }
    }
}

/// Stable sort of an index list by chunk index.
fn sort_by_index(idx: &Vec<usize>, cs: &[DisplayChunk]) -> (res: Vec<usize>)
    requires
        indices_below(idx@, cs.len() as nat),
    ensures
        indices_below(res@, cs.len() as nat),
        chunks_at(cs@, res@) == sort_stable(chunks_at(cs@, idx@), index_le()),
{
    let ghost all = chunks_at(cs@, idx@);
    let mut res: Vec<usize> = Vec::new();
    for k in 0..idx.len()
        invariant
            indices_below(idx@, cs.len() as nat),
            all == chunks_at(cs@, idx@),
            indices_below(res@, cs.len() as nat),
            chunks_at(cs@, res@) == sort_stable(all.take(k as int), index_le()),
    {
        proof {
            assert(all.take(k + 1).drop_last() =~= all.take(k as int));
            assert(all.take(k + 1).last() == cs@[idx@[k as int] as int]);
        }
        insert_by_index(&mut res, idx[k], cs);
    }
    proof {
        assert(all.take(idx.len() as int) =~= all);
    }
    res
}

/// Trimmed non-empty texts of the listed chunks, in order.
fn texts_of(idx: &Vec<usize>, cs: &[DisplayChunk]) -> (res: Vec<String>)
    requires
        indices_below(idx@, cs.len() as nat),
    ensures
        string_views(res@) == chunk_texts(chunks_at(cs@, idx@)),
{
    let ghost all = chunks_at(cs@, idx@);
    let mut res: Vec<String> = Vec::new();
    for k in 0..idx.len()
        invariant
            indices_below(idx@, cs.len() as nat),
            all == chunks_at(cs@, idx@),
            string_views(res@) == chunk_texts(all.take(k as int)),
    {
        proof {
            assert(all.take(k + 1).drop_last() =~= all.take(k as int));
            assert(all.take(k + 1).last() == cs@[idx@[k as int] as int]);
        }
        let t = trimmed(cs[idx[k]].text.as_str());
        let ghost before = res@;
        if !t.as_str().is_empty() {
            proof {
                if t@.len() == 0 {
                    assert(vstd::utf8::encode_utf8(t@) =~= Seq::<u8>::empty());
                }
            }
            res.push(t);
            proof {
                assert(string_views(res@) =~= string_views(before).push(t@));
            }
        } else {
            proof {
                lemma_encode_nonempty(t@);
            }
        }
    }
    proof {
        assert(all.take(idx.len() as int) =~= all);
    }
    res
}

/// Whether some string of `v` equals `x`.
fn contains_string(v: &Vec<String>, x: &String) -> (res: bool)
    ensures
        res == string_views(v@).contains(x@),
{
    for j in 0..v.len()
        invariant
            forall|k: int| 0 <= k < j ==> v@[k]@ != x@,
    {
        if v[j] == *x {
            proof {
                assert(string_views(v@)[j as int] == x@);
            }
            return true;
        }
    }
    proof {
        if string_views(v@).contains(x@) {
            let k = choose|k: int| 0 <= k < v.len() && string_views(v@)[k] == x@;
            assert(v@[k]@ == x@);
        }
    }
    false
}

/// The keywords of a group: the first of each lower-case form, in order.
fn group_keywords(cs: &[DisplayChunk]) -> (res: Vec<String>)
    ensures
        string_views(res@) == dedup_lower(all_keywords(cs@)),
{
    let mut res: Vec<String> = Vec::new();
    let mut lowers: Vec<String> = Vec::new();
    for c in 0..cs.len()
        invariant
            string_views(res@) == dedup_lower(all_keywords(cs@.take(c as int))),
            string_views(lowers@) == all_keywords(cs@.take(c as int)).map_values(|k: Seq<char>| lowercase_chars(k)),
    {
        let kws = &cs[c].keywords;
        let ghost base = all_keywords(cs@.take(c as int));
        proof {
            assert(cs@.take(c + 1).drop_last() =~= cs@.take(c as int));
        }
        for j in 0..kws.len()
            invariant
                kws@ == cs@[c as int].keywords@,
                base == all_keywords(cs@.take(c as int)),
                string_views(res@) == dedup_lower(base + string_views(kws@.take(j as int))),
                string_views(lowers@) == (base + string_views(kws@.take(j as int))).map_values(|k: Seq<char>| lowercase_chars(k)),
        {
            let ghost flat = base + string_views(kws@.take(j as int));
            let ghost next = base + string_views(kws@.take(j + 1));
            proof {
                assert(next =~= flat.push(kws@[j as int]@));
                assert(next.drop_last() =~= flat);
            }
            let low = to_lowercase(kws[j].as_str());
            let seen = contains_string(&lowers, &low);
            let ghost lb = lowers@;
            if !seen {
                res.push(copy_string(&kws[j]));
                proof {
                    assert(string_views(res@) =~= dedup_lower(flat).push(kws@[j as int]@));
                }
            }
            lowers.push(low);
            proof {
                assert(string_views(lowers@) =~= string_views(lb).push(lowercase_chars(kws@[j as int]@)));
                assert(string_views(lowers@) =~= next.map_values(|k: Seq<char>| lowercase_chars(k)));
            }
        }
        proof {
            assert(kws@.take(kws.len() as int) =~= kws@);
            assert(base + string_views(kws@) =~= all_keywords(cs@.take(c + 1)));
        }
    }
    proof {
        assert(cs@.take(cs.len() as int) =~= cs@);
    }
    res
}

proof fn lemma_skip_step(cs: Seq<DisplayChunk>, i: int)
    requires
        0 <= i < cs.len(),
    ensures
        cs.subrange(i, cs.len() as int).drop_first() == cs.subrange(i + 1, cs.len() as int),
        cs.subrange(i, cs.len() as int)[0] == cs[i],
{
    assert(cs.subrange(i, cs.len() as int).drop_first() =~= cs.subrange(i + 1, cs.len() as int));
}

/// The first present title of a group, or the empty name.
fn title_of(cs: &[DisplayChunk]) -> (res: String)
    ensures
        res@ == first_title(cs@),
{
    proof {
        assert(cs@.subrange(0, cs.len() as int) =~= cs@);
    }
    for i in 0..cs.len()
        invariant
            first_title(cs@) == first_title(cs@.subrange(i as int, cs.len() as int)),
    {
        proof {
            lemma_skip_step(cs@, i as int);
        }
        match &cs[i].bm25_title {
            Some(t) => {
                return copy_string(t);
            },
            None => {},
        }
    }
    String::new()
}

/// The first present entity kind of a group, or the empty name.
fn kind_of(cs: &[DisplayChunk]) -> (res: String)
    ensures
        res@ == first_kind(cs@),
{
    proof {
        assert(cs@.subrange(0, cs.len() as int) =~= cs@);
    }
    for i in 0..cs.len()
        invariant
            first_kind(cs@) == first_kind(cs@.subrange(i as int, cs.len() as int)),
    {
        proof {
            lemma_skip_step(cs@, i as int);
        }
        match &cs[i].entity_kind {
            Some(t) => {
                return copy_string(t);
            },
            None => {},
        }
    }
    String::new()
}

/// The first present split reason of a group.
fn split_of(cs: &[DisplayChunk]) -> (res: Option<String>)
    ensures
        opt_chars(res) == first_split(cs@),
{
    proof {
        assert(cs@.subrange(0, cs.len() as int) =~= cs@);
    }
    for i in 0..cs.len()
        invariant
            first_split(cs@) == first_split(cs@.subrange(i as int, cs.len() as int)),
    {
        proof {
            lemma_skip_step(cs@, i as int);
        }
        match &cs[i].split_reason {
            Some(t) => {
                return Some(copy_string(t));
            },
            None => {},
        }
    }
    None
}

/// The first fragment position of a group.
fn fragment_of(cs: &[DisplayChunk]) -> (res: Option<(usize, usize)>)
    ensures
        res == first_fragment(cs@),
{
    proof {
        assert(cs@.subrange(0, cs.len() as int) =~= cs@);
    }
    for i in 0..cs.len()
        invariant
            first_fragment(cs@) == first_fragment(cs@.subrange(i as int, cs.len() as int)),
    {
        proof {
            lemma_skip_step(cs@, i as int);
        }
        if cs[i].fragment.is_some() {
            return cs[i].fragment;
        }
    }
    None
}

/// `line N`, `lines N-M`, or `source range unavailable`.
fn line_info(r: Option<(usize, usize)>) -> (res: String)
    ensures
        res@ == line_info_spec(r),
{
    match r {
        None => String::from_str("source range unavailable"),
        Some((s, e)) => {
            let mut out = String::new();
            if s == e {
                push_str(&mut out, "line ");
                push_usize(&mut out, s);
            } else {
                push_str(&mut out, "lines ");
                push_usize(&mut out, s);
                push_str(&mut out, "-");
                push_usize(&mut out, e);
            }
            out
        },
    }
}

/// `fragment {index + 1}/{total}`.
fn fragment_info(f: Option<(usize, usize)>) -> (res: Option<String>)
    requires
        frag_pos_ok(f),
    ensures
        opt_chars(res) == fragment_spec(f),
{
    match f {
        None => None,
        Some((i, t)) => {
            let mut out = String::new();
            push_str(&mut out, "fragment ");
            push_usize(&mut out, i + 1);
            push_str(&mut out, "/");
            push_usize(&mut out, t);
            Some(out)
        },
    }
}

/// Whether `a` precedes or equals `b` in the order of `String`.
fn str_le(a: &String, b: &String) -> (res: bool)
    ensures
        res == chars_le(a@, b@),
{
    let x = chars_of(a.as_str());
    let y = chars_of(b.as_str());
    proof {
        assert(x@.subrange(0, x.len() as int) =~= x@);
        assert(y@.subrange(0, y.len() as int) =~= y@);
    }
    let mut k: usize = 0;
    while k < x.len() && k < y.len() && x[k] == y[k]
        invariant
            k <= x.len(),
            k <= y.len(),
            chars_le(x@, y@) == chars_le(x@.subrange(k as int, x.len() as int), y@.subrange(k as int, y.len() as int)),
        decreases x.len() - k,
    {
        proof {
            let xs = x@.subrange(k as int, x.len() as int);
            let ys = y@.subrange(k as int, y.len() as int);
            assert(xs.drop_first() =~= x@.subrange(k + 1, x.len() as int));
            assert(ys.drop_first() =~= y@.subrange(k + 1, y.len() as int));
        }
        k = k + 1;
    }
    proof {
        let xs = x@.subrange(k as int, x.len() as int);
        let ys = y@.subrange(k as int, y.len() as int);
        if k < x.len() && k < y.len() {
            assert(xs[0] == x@[k as int]);
            assert(ys[0] == y@[k as int]);
        }
    }
    if k == x.len() {
        true
    } else if k == y.len() {
        false
    } else {
        (x[k] as u32) < (y[k] as u32)
    }
}

/// A copy of a related-group entry.
fn copy_related(r: &(String, String, u32)) -> (res: (String, String, u32))
    ensures
        related_view(res) == related_view(*r),
{
    (copy_string(&r.0), copy_string(&r.1), r.2)
}

/// Inserts `x` into related groups sorted by group id, after every entry
/// whose id is not above it.
fn insert_related(v: &mut Vec<(String, String, u32)>, x: (String, String, u32))
    ensures
        related_views(final(v)@) == insert_stable(related_views(old(v)@), related_view(x), related_le()),
    decreases old(v).len(),
{
    let ghost v0 = v@;
    if v.len() == 0 {
        v.push(x);
        proof {
            assert(related_views(v@) =~= seq![related_view(x)]);
        }
    } else if str_le(&v[v.len() - 1].0, &x.0) {
        v.push(x);
        proof {
            assert(related_views(v@) =~= related_views(v0).push(related_view(x)));
        }
    } else {
        let l = v.pop().unwrap();
        proof {
            assert(related_views(v@) =~= related_views(v0).drop_last());
        }
        let ghost lv = related_view(l);
        insert_related(v, x);
        let ghost after = v@;
        v.push(l);
        proof {
            assert(related_views(v@) =~= related_views(after).push(lv));
        }
    }
}

/// The related groups of a group: every entry, sorted stably by group id,
/// without entries equal to their predecessor.
fn related_of(cs: &[DisplayChunk]) -> (res: Vec<(String, String, u32)>)
    ensures
        related_views(res@) == dedup_adjacent(sort_stable(all_related(cs@), related_le())),
{
    let mut sorted: Vec<(String, String, u32)> = Vec::new();
    let ghost mut flat: Seq<(Seq<char>, Seq<char>, u32)> = Seq::empty();
    for c in 0..cs.len()
        invariant
            flat == all_related(cs@.take(c as int)),
            related_views(sorted@) == sort_stable(flat, related_le()),
    {
        let rs = &cs[c].related;
        let ghost base = flat;
        proof {
            assert(cs@.take(c + 1).drop_last() =~= cs@.take(c as int));
        }
        for j in 0..rs.len()
            invariant
                rs@ == cs@[c as int].related@,
                base == all_related(cs@.take(c as int)),
                flat == base + related_views(rs@.take(j as int)),
                related_views(sorted@) == sort_stable(flat, related_le()),
        {
            let ghost next = base + related_views(rs@.take(j + 1));
            proof {
                assert(next =~= flat.push(related_view(rs@[j as int])));
                assert(next.drop_last() =~= flat);
            }
            insert_related(&mut sorted, copy_related(&rs[j]));
            proof {
                flat = next;
            }
        }
        proof {
            assert(rs@.take(rs.len() as int) =~= rs@);
            assert(flat =~= all_related(cs@.take(c + 1)));
        }
    }
    proof {
        assert(cs@.take(cs.len() as int) =~= cs@);
    }
    let ghost sv = related_views(sorted@);
    let mut res: Vec<(String, String, u32)> = Vec::new();
    for k in 0..sorted.len()
        invariant
            sv == related_views(sorted@),
            related_views(res@) == dedup_adjacent(sv.take(k as int)),
            k > 0 ==> res@.len() > 0 && related_view(res@.last()) == sv[k - 1],
    {
        proof {
            assert(sv.take(k + 1).drop_last() =~= sv.take(k as int));
        }
        let ghost rb = res@;
        let keep = if k == 0 {
            true
        } else {
            let p = &sorted[k - 1];
            let q = &sorted[k];
            !(p.0 == q.0 && p.1 == q.1 && p.2 == q.2)
        };
        proof {
            if k > 0 {
                assert(sv.take(k + 1)[k - 1] == sv[k - 1]);
                assert(sv[k - 1] == related_view(sorted@[k - 1]));
                assert(sv[k as int] == related_view(sorted@[k as int]));
            }
        }
        if keep {
            res.push(copy_related(&sorted[k]));
            proof {
                assert(related_views(res@) =~= related_views(rb).push(sv[k as int]));
                if k > 0 {
                    assert(sv.take(k + 1).last() != sv.take(k + 1)[k - 1]);
                }
            }
        } else {
            proof {
                let ghost dummy = related_views(res@);
                assert(sv.take(k + 1).last() == sv.take(k + 1)[k - 1]);
            }
        }
    }
    proof {
        assert(sv.take(sorted.len() as int) =~= sv);
    }
    res
}

/// A fragment position whose index can be shown one-based.
pub open spec fn frag_pos_ok(f: Option<(usize, usize)>) -> bool {
    match f {
        Some((i, _)) => i < usize::MAX,
        None => true,
    }
}

pub open spec fn frag_ok(c: DisplayChunk) -> bool {
    frag_pos_ok(c.fragment)
}

proof fn lemma_first_fragment_bound(cs: Seq<DisplayChunk>)
    requires
        forall|k: int| 0 <= k < cs.len() ==> frag_ok(#[trigger] cs[k]),
    ensures
        frag_pos_ok(first_fragment(cs)),
    decreases cs.len(),
{
    if cs.len() > 0 && cs[0].fragment is None {
        assert forall|k: int| 0 <= k < cs.drop_first().len() implies frag_ok(#[trigger] cs.drop_first()[k]) by {
            assert(cs.drop_first()[k] == cs[k + 1]);
        }
        lemma_first_fragment_bound(cs.drop_first());
    }
}

pub open spec fn opt_section_view(o: Option<DisplaySection>) -> Option<SectionView> {
    match o {
        Some(s) => Some(section_view(s)),
        None => None,
    }
}

/// Fragment indices that can be shown one-based.
pub open spec fn fragments_displayable(cs: Seq<DisplayChunk>) -> bool {
    forall|k: int| 0 <= k < cs.len() ==> frag_ok(#[trigger] cs[k])
}

/// The section of one non-empty group, none when it has neither code nor
/// natural-language chunks.
fn section_of(cs: &[DisplayChunk], filter: Option<ChunkPath>, include_keywords: bool) -> (res: Option<DisplaySection>)
    requires
        cs.len() > 0,
        fragments_displayable(cs@),
    ensures
        opt_section_view(res) == group_section(cs@, filter, include_keywords),
{
    let bm = select_path(cs, ChunkPath::Bm25);
    let em = select_path(cs, ChunkPath::Embedding);
    let code_idx: Vec<usize> = match filter {
        Some(ChunkPath::Embedding) => Vec::new(),
        _ => select_path(cs, ChunkPath::Bm25),
    };
    let nl_idx: Vec<usize> = match filter {
        Some(ChunkPath::Bm25) => Vec::new(),
        Some(ChunkPath::Embedding) => select_path(cs, ChunkPath::Embedding),
        None => if em.len() > 0 {
            select_path(cs, ChunkPath::Embedding)
        } else {
            select_path(cs, ChunkPath::Bm25)
        },
    };
    proof {
        assert(chunks_at(cs@, code_idx@) =~= code_chunks(cs@, filter));
        assert(chunks_at(cs@, nl_idx@) =~= nl_chunks(cs@, filter));
    }
    if code_idx.len() == 0 && nl_idx.len() == 0 {
        return None;
    }
    let code_texts = texts_of(&sort_by_index(&code_idx, cs), cs);
    let nl_texts = texts_of(&sort_by_index(&nl_idx, cs), cs);
    let keywords = if include_keywords {
        group_keywords(cs)
    } else {
        let empty: Vec<String> = Vec::new();
        proof {
            assert(string_views(empty@) =~= Seq::<Seq<char>>::empty());
        }
        empty
    };
    let chunk_paths = path_names_of(cs);
    proof {
        lemma_first_fragment_bound(cs@);
    }
    let first = &cs[0];
    let start_line = match first.line_range {
        Some((s, _)) => s,
        None => 0,
    };
    let section = DisplaySection {
        entity_name: title_of(cs),
        line_info: line_info(first.line_range),
        code_texts,
        nl_texts,
        keywords,
        start_line,
        group_type: copy_string(&first.group_type),
        entity_kind: kind_of(cs),
        fragment_info: fragment_info(fragment_of(cs)),
        split_reason: split_of(cs),
        chunk_paths,
        related_groups: related_of(cs),
    };
    proof {
        assert(section_view(section) == group_section(cs@, filter, include_keywords)->0);
    }
    Some(section)
}

/// Inserts `x` into sections sorted by start line, after every section
/// that does not start later.
fn insert_section(v: &mut Vec<DisplaySection>, x: DisplaySection)
    ensures
        section_views(final(v)@) == insert_stable(section_views(old(v)@), section_view(x), start_le()),
    decreases old(v).len(),
{
    let ghost v0 = v@;
    if v.len() == 0 {
        v.push(x);
        proof {
            assert(section_views(v@) =~= seq![section_view(x)]);
        }
    } else if v[v.len() - 1].start_line <= x.start_line {
        v.push(x);
        proof {
            assert(section_views(v@) =~= section_views(v0).push(section_view(x)));
        }
    } else {
        let l = v.pop().unwrap();
        proof {
            assert(section_views(v@) =~= section_views(v0).drop_last());
        }
        let ghost lv = section_view(l);
        insert_section(v, x);
        let ghost after = v@;
        v.push(l);
        proof {
            assert(section_views(v@) =~= section_views(after).push(lv));
        }
    }
}

/// `a + b` capped at `usize::MAX`.
fn sat_add(a: usize, b: usize) -> (res: usize)
    ensures
        res == cap((a + b) as nat),
{
    if a > usize::MAX - b { usize::MAX } else { a + b }
}

/// UTF-8 length of the texts, capped at `usize::MAX`.
fn texts_bytes(ts: &Vec<String>) -> (res: usize)
    ensures
        res == cap(bytes_total(string_views(ts@))),
{
    let ghost tv = string_views(ts@);
    let mut total: usize = 0;
    for k in 0..ts.len()
        invariant
            tv == string_views(ts@),
            total == cap(bytes_total(tv.take(k as int))),
    {
        proof {
            assert(tv.take(k + 1).drop_last() =~= tv.take(k as int));
        }
        total = sat_add(total, ts[k].as_str().len());
    }
    proof {
        assert(tv.take(ts.len() as int) =~= tv);
    }
    total
}

/// Score of a section.
fn score_of(s: &DisplaySection) -> (res: usize)
    ensures
        res == section_score(section_view(*s)),
{
    let a = texts_bytes(&s.code_texts);
    let b = texts_bytes(&s.nl_texts);
    let c = texts_bytes(&s.keywords);
    sat_add(sat_add(a, b), c)
}

/// Some section of `r` has the key of `x`.
pub open spec fn has_key(r: Seq<SectionView>, x: SectionView) -> bool {
    exists|i: int| 0 <= i < r.len() && same_key(#[trigger] r[i], x)
}

/// No section of `s` with the key of `s[t]` is richer than it, and no
/// earlier one is as rich.
pub open spec fn first_richest_at(s: Seq<SectionView>, t: int) -> bool {
    &&& forall|j: int| 0 <= j < s.len() && same_key(#[trigger] s[j], s[t]) ==> section_score(s[j]) <= section_score(s[t])
    &&& forall|j: int| 0 <= j < t && same_key(#[trigger] s[j], s[t]) ==> section_score(s[j]) < section_score(s[t])
}

/// Some position of `s` holds `y` and is the first richest of its key.
pub open spec fn kept_from(s: Seq<SectionView>, y: SectionView) -> bool {
    exists|t: int| 0 <= t < s.len() && #[trigger] s[t] == y && first_richest_at(s, t)
}

/// Sections with the same key have the same first key position.
proof fn lemma_key_position_same(s: Seq<SectionView>, a: SectionView, b: SectionView)
    requires
        same_key(a, b),
    ensures
        key_position(s, a) == key_position(s, b),
    decreases s.len(),
{
    if s.len() > 0 {
        lemma_key_position_same(s.drop_last(), a, b);
    }
}

/// The kept sections have distinct keys, every input key is kept, and every
/// kept section is an input section.
proof fn lemma_dedup_keys(s: Seq<SectionView>)
    ensures
        forall|i: int, k: int| 0 <= i < k < dedup_sections(s).len()
            ==> !same_key(#[trigger] dedup_sections(s)[i], #[trigger] dedup_sections(s)[k]),
        forall|j: int| 0 <= j < s.len() ==> has_key(dedup_sections(s), #[trigger] s[j]),
        forall|i: int| 0 <= i < dedup_sections(s).len() ==> s.contains(#[trigger] dedup_sections(s)[i]),
    decreases s.len(),
{
    if s.len() == 0 {
        return;
    }
    let r = dedup_sections(s);
    let d = s.drop_last();
    let x = s.last();
    let n = s.len() as int;
    let prev = dedup_sections(d);
    lemma_dedup_keys(d);
    lemma_key_position(prev, x);
    assert forall|j: int| 0 <= j < n - 1 implies #[trigger] d[j] == s[j] by {}
    assert(s[n - 1] == x);
    assert forall|a: int| 0 <= a < prev.len() implies s.contains(#[trigger] prev[a]) by {
        assert(d.contains(prev[a]));
        let t = choose|t: int| 0 <= t < d.len() && d[t] == prev[a];
        assert(s[t] == prev[a]);
    }
    match key_position(prev, x) {
        Some(i) => {
            let upd = section_score(x) > section_score(prev[i]);
            assert(r == if upd { prev.update(i, x) } else { prev });
            assert forall|a: int| 0 <= a < r.len() implies #[trigger] r[a] == prev[a] || (a == i && r[a] == x) by {}
            assert forall|a: int, k: int| 0 <= a < k < r.len() implies !same_key(#[trigger] r[a], #[trigger] r[k]) by {
                assert(!same_key(prev[a], prev[k]));
                assert(same_key(prev[i], x));
            }
            assert forall|j: int| 0 <= j < s.len() implies has_key(r, #[trigger] s[j]) by {
                if j < n - 1 {
                    assert(has_key(prev, d[j]));
                    let a = choose|a: int| 0 <= a < prev.len() && same_key(#[trigger] prev[a], d[j]);
                    assert(same_key(r[a], s[j]));
                } else {
                    assert(same_key(r[i], s[j]));
                }
            }
            assert forall|a: int| 0 <= a < r.len() implies s.contains(#[trigger] r[a]) by {
                if r[a] == x {
                    assert(s[n - 1] == r[a]);
                } else {
                    assert(s.contains(prev[a]));
                }
            }
        },
        None => {
            assert(r == prev.push(x));
            assert forall|a: int, k: int| 0 <= a < k < r.len() implies !same_key(#[trigger] r[a], #[trigger] r[k]) by {
                assert(r[a] == prev[a]);
                if k < prev.len() {
                    assert(r[k] == prev[k]);
                } else {
                    assert(!same_key(prev[a], x));
                }
            }
            assert forall|j: int| 0 <= j < s.len() implies has_key(r, #[trigger] s[j]) by {
                if j < n - 1 {
                    assert(has_key(prev, d[j]));
                    let a = choose|a: int| 0 <= a < prev.len() && same_key(#[trigger] prev[a], d[j]);
                    assert(r[a] == prev[a]);
                } else {
                    assert(same_key(r[prev.len() as int], s[j]));
                }
            }
            assert forall|a: int| 0 <= a < r.len() implies s.contains(#[trigger] r[a]) by {
                if a < prev.len() {
                    assert(r[a] == prev[a]);
                } else {
                    assert(s[n - 1] == r[a]);
                }
            }
        },
    }
}

/// A first richest position stays one when a section is appended that does
/// not beat it.
proof fn lemma_first_richest_extends(s: Seq<SectionView>, t: int)
    requires
        s.len() > 0,
        0 <= t < s.len() - 1,
        first_richest_at(s.drop_last(), t),
        same_key(s.last(), s[t]) ==> section_score(s.last()) <= section_score(s[t]),
    ensures
        first_richest_at(s, t),
{
    let d = s.drop_last();
    assert(d[t] == s[t]);
    assert forall|j: int| 0 <= j < s.len() && same_key(#[trigger] s[j], s[t])
        implies section_score(s[j]) <= section_score(s[t]) by {
        if j < s.len() - 1 {
            assert(d[j] == s[j]);
        }
    }
    assert forall|j: int| 0 <= j < t && same_key(#[trigger] s[j], s[t])
        implies section_score(s[j]) < section_score(s[t]) by {
        assert(d[j] == s[j]);
    }
}

/// The last section is the first richest of its key when every earlier
/// section with its key is poorer.
proof fn lemma_first_richest_last(s: Seq<SectionView>)
    requires
        s.len() > 0,
        forall|j: int| 0 <= j < s.len() - 1 && same_key(#[trigger] s[j], s.last())
            ==> section_score(s[j]) < section_score(s.last()),
    ensures
        first_richest_at(s, s.len() - 1),
{
    assert(s[s.len() - 1] == s.last());
}

/// Every kept section is the first richest input section of its key.
proof fn lemma_dedup_richest(s: Seq<SectionView>)
    ensures
        forall|i: int| 0 <= i < dedup_sections(s).len() ==> kept_from(s, #[trigger] dedup_sections(s)[i]),
    decreases s.len(),
{
    if s.len() == 0 {
        return;
    }
    let r = dedup_sections(s);
    let d = s.drop_last();
    let x = s.last();
    let n = s.len() as int;
    let prev = dedup_sections(d);
    lemma_dedup_keys(d);
    lemma_dedup_richest(d);
    lemma_key_position(prev, x);
    assert forall|j: int| 0 <= j < n - 1 implies #[trigger] d[j] == s[j] by {}
    assert(s[n - 1] == x);
    // a kept section of the shorter input stays kept unless the last
    // section beats it
    assert forall|a: int| 0 <= a < prev.len() && (same_key(prev[a], x) ==> section_score(x) <= section_score(prev[a]))
        implies kept_from(s, #[trigger] prev[a]) by {
        assert(kept_from(d, prev[a]));
        let t = choose|t: int| 0 <= t < d.len() && #[trigger] d[t] == prev[a] && first_richest_at(d, t);
        lemma_first_richest_extends(s, t);
        assert(s[t] == prev[a]);
    }
    match key_position(prev, x) {
        Some(i) => {
            assert(same_key(prev[i], x));
            if section_score(x) > section_score(prev[i]) {
                assert(r == prev.update(i, x));
                assert forall|j: int| 0 <= j < n - 1 && same_key(#[trigger] s[j], s.last())
                    implies section_score(s[j]) < section_score(s.last()) by {
                    assert(kept_from(d, prev[i]));
                    let t = choose|t: int| 0 <= t < d.len() && #[trigger] d[t] == prev[i] && first_richest_at(d, t);
                    assert(same_key(d[j], d[t]));
                }
                lemma_first_richest_last(s);
                assert forall|a: int| 0 <= a < r.len() implies kept_from(s, #[trigger] r[a]) by {
                    if a == i {
                        assert(s[n - 1] == r[a]);
                    } else {
                        assert(r[a] == prev[a]);
                        assert(!same_key(prev[a], prev[i]));
                        assert(kept_from(s, prev[a]));
                    }
                }
            } else {
                assert(r == prev);
                assert forall|a: int| 0 <= a < r.len() implies kept_from(s, #[trigger] r[a]) by {
                    if a != i {
                        assert(!same_key(prev[a], prev[i]));
                    }
                    assert(kept_from(s, prev[a]));
                }
            }
        },
        None => {
            assert(r == prev.push(x));
            assert forall|j: int| 0 <= j < n - 1 && same_key(#[trigger] s[j], s.last())
                implies section_score(s[j]) < section_score(s.last()) by {
                assert(has_key(prev, d[j]));
                let a = choose|a: int| 0 <= a < prev.len() && same_key(#[trigger] prev[a], d[j]);
                assert(same_key(prev[a], x));
            }
            lemma_first_richest_last(s);
            assert forall|a: int| 0 <= a < r.len() implies kept_from(s, #[trigger] r[a]) by {
                if a < prev.len() {
                    assert(r[a] == prev[a]);
                    assert(kept_from(s, prev[a]));
                } else {
                    assert(s[n - 1] == r[a]);
                }
            }
        },
    }
}

/// The kept sections follow the order of their keys' first appearance.
proof fn lemma_dedup_order(s: Seq<SectionView>)
    ensures
        forall|i: int, k: int| 0 <= i < k < dedup_sections(s).len()
            ==> (key_position(s, #[trigger] dedup_sections(s)[i]) matches Some(a)
                && key_position(s, #[trigger] dedup_sections(s)[k]) matches Some(b) && a < b),
    decreases s.len(),
{
    if s.len() == 0 {
        return;
    }
    let r = dedup_sections(s);
    let d = s.drop_last();
    let x = s.last();
    let n = s.len() as int;
    let prev = dedup_sections(d);
    lemma_dedup_keys(d);
    lemma_dedup_order(d);
    lemma_key_position(prev, x);
    assert forall|a: int| 0 <= a < prev.len() implies #[trigger] key_position(d, prev[a]) is Some by {
        assert(d.contains(prev[a]));
        let t = choose|t: int| 0 <= t < d.len() && d[t] == prev[a];
        lemma_key_position(d, prev[a]);
        assert(same_key(d[t], prev[a]));
    }
    match key_position(prev, x) {
        Some(i) => {
            assert(same_key(prev[i], x));
            lemma_key_position_same(d, x, prev[i]);
            lemma_key_position_same(s, x, prev[i]);
            assert forall|a: int| 0 <= a < r.len() implies #[trigger] key_position(s, r[a]) == key_position(d, prev[a]) by {
                if r[a] != prev[a] {
                    assert(a == i && r[a] == x);
                }
            }
        },
        None => {
            assert(r == prev.push(x));
            assert(key_position(d, x) is None) by {
                lemma_key_position(d, x);
                if key_position(d, x) is Some {
                    let j = key_position(d, x)->0;
                    assert(has_key(prev, d[j]));
                    let a = choose|a: int| 0 <= a < prev.len() && same_key(#[trigger] prev[a], d[j]);
                    assert(same_key(prev[a], x));
                }
            }
            assert(key_position(s, x) == Some(n - 1));
            assert forall|a: int| 0 <= a < prev.len() implies #[trigger] key_position(s, r[a]) == key_position(d, prev[a]) by {
                assert(r[a] == prev[a]);
                lemma_key_position(d, prev[a]);
            }
            assert forall|a: int, k: int| 0 <= a < k < r.len() implies
                (key_position(s, #[trigger] r[a]) matches Some(p)
                    && key_position(s, #[trigger] r[k]) matches Some(q) && p < q) by {
                if k == prev.len() {
                    assert(r[k] == x);
                    lemma_key_position(d, prev[a]);
                }
            }
        },
    }
}

/// Deduplication keeps one section per key: the keys of the result are
/// distinct and are exactly the keys of the input, each kept section is
/// the richest input section of its key (the first among equally rich
/// ones), and the kept sections follow the order of their keys' first
/// appearance.
pub proof fn lemma_dedup_keeps_richest(s: Seq<SectionView>)
    ensures
        forall|i: int, k: int| 0 <= i < k < dedup_sections(s).len()
            ==> !same_key(#[trigger] dedup_sections(s)[i], #[trigger] dedup_sections(s)[k]),
        forall|j: int| 0 <= j < s.len() ==> has_key(dedup_sections(s), #[trigger] s[j]),
        forall|i: int| 0 <= i < dedup_sections(s).len() ==> kept_from(s, #[trigger] dedup_sections(s)[i]),
        forall|i: int, k: int| 0 <= i < k < dedup_sections(s).len()
            ==> (key_position(s, #[trigger] dedup_sections(s)[i]) matches Some(a)
                && key_position(s, #[trigger] dedup_sections(s)[k]) matches Some(b) && a < b),
{
    lemma_dedup_keys(s);
    lemma_dedup_richest(s);
    lemma_dedup_order(s);
}

proof fn lemma_key_position(s: Seq<SectionView>, x: SectionView)
    ensures
        key_position(s, x) is None <==> forall|j: int| 0 <= j < s.len() ==> !same_key(#[trigger] s[j], x),
        key_position(s, x) matches Some(i) ==> 0 <= i < s.len() && same_key(s[i], x)
            && forall|j: int| 0 <= j < i ==> !same_key(#[trigger] s[j], x),
    decreases s.len(),
{
    if s.len() > 0 {
        lemma_key_position(s.drop_last(), x);
        assert forall|j: int| 0 <= j < s.len() - 1 implies s.drop_last()[j] == s[j] by {}
        if key_position(s, x) is None {
            assert forall|j: int| 0 <= j < s.len() implies !same_key(#[trigger] s[j], x) by {
                if j < s.len() - 1 {
                    assert(s.drop_last()[j] == s[j]);
                }
            }
        }
    }
}

/// Position of the first section with the key of `x`.
fn find_key(v: &Vec<DisplaySection>, x: &DisplaySection) -> (res: Option<usize>)
    ensures
        match res {
            Some(i) => key_position(section_views(v@), section_view(*x)) == Some(i as int),
            None => key_position(section_views(v@), section_view(*x)) is None,
        },
{
    let ghost sv = section_views(v@);
    let ghost xv = section_view(*x);
    proof {
        lemma_key_position(sv, xv);
    }
    for j in 0..v.len()
        invariant
            sv == section_views(v@),
            xv == section_view(*x),
            forall|k: int| 0 <= k < j ==> !same_key(#[trigger] sv[k], xv),
    {
        if v[j].entity_name == x.entity_name && v[j].line_info == x.line_info {
            proof {
                lemma_key_position(sv, xv);
                assert(same_key(sv[j as int], xv));
                let kp = key_position(sv, xv);
                if kp is Some {
                    let i = kp->0;
                    if i < j {
                        assert(!same_key(sv[i], xv));
                    }
                }
            }
            return Some(j);
        }
    }
    proof {
        lemma_key_position(sv, xv);
        let kp = key_position(sv, xv);
        if kp is Some {
            assert(!same_key(sv[kp->0], xv));
        }
    }
    None
}

/// One section per (entity name, line information): the richest, the
/// first among equals, at the place of the key's first section.
fn dedup(sorted: Vec<DisplaySection>) -> (res: Vec<DisplaySection>)
    ensures
        section_views(res@) == dedup_sections(section_views(sorted@)),
{
    let ghost all = section_views(sorted@);
    let n = sorted.len();
    proof {
        assert(all.len() == n);
    }
    let mut rest = sorted;
    let mut out: Vec<DisplaySection> = Vec::new();
    let mut scores: Vec<usize> = Vec::new();
    let mut k: usize = 0;
    while rest.len() > 0
        invariant
            k <= all.len(),
            all.len() <= usize::MAX,
            section_views(rest@) == all.subrange(k as int, all.len() as int),
            section_views(out@) == dedup_sections(all.take(k as int)),
            scores.len() == out.len(),
            forall|j: int| 0 <= j < scores.len() ==> #[trigger] scores@[j] == section_score(section_view(out@[j])),
        decreases rest.len(),
    {
        let ghost r0 = rest@;
        proof {
            assert(section_views(r0).len() == r0.len());
            assert(k < all.len());
        }
        let x = rest.remove(0);
        proof {
            assert(rest@ =~= r0.subrange(1, r0.len() as int));
            assert(section_views(r0)[0] == section_view(x));
            assert(all.subrange(k as int, all.len() as int)[0] == all[k as int]);
            assert(section_views(rest@) =~= section_views(r0).subrange(1, r0.len() as int));
            assert(section_views(rest@) =~= all.subrange(k + 1, all.len() as int));
            assert(section_view(x) == all[k as int]);
            assert(all.take(k + 1).drop_last() =~= all.take(k as int));
        }
        let ghost prev = section_views(out@);
        let sx = score_of(&x);
        match find_key(&out, &x) {
            Some(i) => {
                proof {
                    lemma_key_position(prev, section_view(x));
                }
                if sx > scores[i] {
                    out[i] = x;
                    scores[i] = sx;
                    proof {
                        assert(section_views(out@) =~= prev.update(i as int, all[k as int]));
                    }
                }
            },
            None => {
                scores.push(sx);
                out.push(x);
                proof {
                    assert(section_views(out@) =~= prev.push(all[k as int]));
                }
            },
        }
        k = k + 1;
    }
    proof {
        assert(all.take(k as int) =~= all);
    }
    out
}

/// The display sections of source groups: one section per group with code
/// or natural-language chunks (`filter_path` selects which paths are
/// shown, `include_keywords` whether keywords are), ordered stably by start
/// line, with sections of the same entity name and line information
/// merged into the richest one.
pub fn build_sections(
    groups: &[(String, Vec<DisplayChunk>)],
    filter_path: Option<ChunkPath>,
    include_keywords: bool,
) -> (res: Vec<DisplaySection>)
    requires
        forall|g: int| 0 <= g < groups.len() ==> (#[trigger] groups@[g]).1.len() > 0,
        forall|g: int| 0 <= g < groups.len() ==> fragments_displayable((#[trigger] groups@[g]).1@),
    ensures
        section_views(res@) == dedup_sections(sort_by_start(sections_spec(groups@, filter_path, include_keywords))),
        forall|i: int, k: int| 0 <= i < k < res.len()
            ==> !same_key(#[trigger] section_views(res@)[i], #[trigger] section_views(res@)[k]),
        forall|j: int| 0 <= j < sort_by_start(sections_spec(groups@, filter_path, include_keywords)).len()
            ==> has_key(section_views(res@), #[trigger] sort_by_start(sections_spec(groups@, filter_path, include_keywords))[j]),
        forall|i: int| 0 <= i < res.len()
            ==> kept_from(sort_by_start(sections_spec(groups@, filter_path, include_keywords)), #[trigger] section_views(res@)[i]),
{
    let mut sorted: Vec<DisplaySection> = Vec::new();
    for g in 0..groups.len()
        invariant
            forall|h: int| 0 <= h < groups.len() ==> (#[trigger] groups@[h]).1.len() > 0,
            forall|h: int| 0 <= h < groups.len() ==> fragments_displayable((#[trigger] groups@[h]).1@),
            section_views(sorted@) == sort_by_start(sections_spec(groups@.take(g as int), filter_path, include_keywords)),
    {
        proof {
            assert(groups@.take(g + 1).drop_last() =~= groups@.take(g as int));
            assert(groups@.take(g + 1).last() == groups@[g as int]);
            assert(groups@[g as int].1.len() > 0);
        }
        let chunks = groups[g].1.as_slice();
        match section_of(chunks, filter_path, include_keywords) {
            Some(s) => {
                let ghost sv = section_view(s);
                insert_section(&mut sorted, s);
                proof {
                    let prev = sections_spec(groups@.take(g as int), filter_path, include_keywords);
                    assert(prev.push(sv).drop_last() =~= prev);
                }
            },
            None => {},
        }
    }
    proof {
        assert(groups@.take(groups.len() as int) =~= groups@);
    }
    let res = dedup(sorted);
    proof {
        lemma_dedup_keeps_richest(sort_by_start(sections_spec(groups@, filter_path, include_keywords)));
    }
    res
}

/// Inserts `x` into names sorted in string order, after every name not
/// above it.
fn insert_name(v: &mut Vec<String>, x: String)
    ensures
        string_views(final(v)@) == insert_stable(string_views(old(v)@), x@, name_le()),
    decreases old(v).len(),
{
    let ghost v0 = v@;
    if v.len() == 0 {
        v.push(x);
        proof {
            assert(string_views(v@) =~= seq![x@]);
        }
    } else if str_le(&v[v.len() - 1], &x) {
        v.push(x);
        proof {
            assert(string_views(v@) =~= string_views(v0).push(x@));
        }
    } else {
        let l = v.pop().unwrap();
        proof {
            assert(string_views(v@) =~= string_views(v0).drop_last());
        }
        let ghost lv = l@;
        insert_name(v, x);
        let ghost after = v@;
        v.push(l);
        proof {
            assert(string_views(v@) =~= string_views(after).push(lv));
        }
    }
}

/// The distinct path names of a group, in string order.
fn path_names_of(cs: &[DisplayChunk]) -> (res: Vec<String>)
    ensures
        string_views(res@) == paths_spec(cs@),
{
    let ghost names = path_names(cs@);
    let mut sorted: Vec<String> = Vec::new();
    for c in 0..cs.len()
        invariant
            names == path_names(cs@),
            string_views(sorted@) == sort_stable(names.take(c as int), name_le()),
    {
        proof {
            assert(names.take(c + 1).drop_last() =~= names.take(c as int));
            assert(names.take(c + 1).last() == cs@[c as int].path_name@);
        }
        insert_name(&mut sorted, copy_string(&cs[c].path_name));
    }
    proof {
        assert(names.take(cs.len() as int) =~= names);
    }
    let ghost sv = string_views(sorted@);
    let mut res: Vec<String> = Vec::new();
    for k in 0..sorted.len()
        invariant
            sv == string_views(sorted@),
            string_views(res@) == dedup_adjacent(sv.take(k as int)),
    {
        proof {
            assert(sv.take(k + 1).drop_last() =~= sv.take(k as int));
        }
        let ghost rb = res@;
        let keep = k == 0 || sorted[k - 1] != sorted[k];
        proof {
            if k > 0 {
                assert(sv.take(k + 1)[k - 1] == sv[k - 1]);
                assert(sv[k - 1] == sorted@[k - 1]@);
                assert(sv[k as int] == sorted@[k as int]@);
            }
        }
        if keep {
            res.push(copy_string(&sorted[k]));
            proof {
                assert(string_views(res@) =~= string_views(rb).push(sv[k as int]));
            }
        }
    }
    proof {
        assert(sv.take(sorted.len() as int) =~= sv);
    }
    res
}

// ---------------------------------------------------------------------
// Grouping chunks by source group.

/// Position of the first entry equal to `x`.
pub open spec fn first_index<T>(s: Seq<T>, x: T) -> Option<int>
    decreases s.len(),
{
    if s.len() == 0 {
        None
    } else {
        match first_index(s.drop_last(), x) {
            Some(i) => Some(i),
            None => if s.last() == x { Some(s.len() - 1) } else { None },
        }
    }
}

/// The ids of groups.
pub open spec fn group_keys(gs: Seq<(Seq<char>, Seq<usize>)>) -> Seq<Seq<char>> {
    gs.map_values(|g: (Seq<char>, Seq<usize>)| g.0)
}

/// Chunk positions grouped by group id: one group per distinct id, in order
/// of the id's first appearance, each holding the positions of its chunks
/// in order.
pub open spec fn source_groups(ids: Seq<Seq<char>>) -> Seq<(Seq<char>, Seq<usize>)>
    decreases ids.len(),
{
    if ids.len() == 0 {
        Seq::empty()
    } else {
        let prev = source_groups(ids.drop_last());
        let i = (ids.len() - 1) as usize;
        match first_index(group_keys(prev), ids.last()) {
            Some(k) => prev.update(k, (prev[k].0, prev[k].1.push(i))),
            None => prev.push((ids.last(), seq![i])),
        }
    }
}

/// The smallest start row among the chunks at positions `idx`.
pub open spec fn min_row(rows: Seq<usize>, idx: Seq<usize>) -> int
    decreases idx.len(),
{
    if idx.len() == 0 {
        0
    } else if idx.len() == 1 {
        rows[idx[0] as int] as int
    } else {
        let m = min_row(rows, idx.drop_last());
        if (rows[idx.last() as int] as int) < m { rows[idx.last() as int] as int } else { m }
    }
}

/// Some chunk of the group at positions `idx` starts at or before row `v`.
pub open spec fn starts_by(rows: Seq<usize>, idx: Seq<usize>, v: int) -> bool {
    exists|a: int| 0 <= a < idx.len() && rows[#[trigger] idx[a] as int] <= v
}

/// The smallest start row of a non-empty group is at most the start row of
/// each of its chunks and is the start row of one of them.
pub proof fn lemma_min_row_is_least(rows: Seq<usize>, idx: Seq<usize>)
    requires
        idx.len() > 0,
        forall|m: int| 0 <= m < idx.len() ==> (#[trigger] idx[m]) < rows.len(),
    ensures
        forall|m: int| 0 <= m < idx.len() ==> min_row(rows, idx) <= rows[#[trigger] idx[m] as int],
        exists|m: int| 0 <= m < idx.len() && min_row(rows, idx) == rows[#[trigger] idx[m] as int],
    decreases idx.len(),
{
    if idx.len() == 1 {
        assert(min_row(rows, idx) == rows[idx[0] as int]);
    } else {
        let d = idx.drop_last();
        assert forall|m: int| 0 <= m < d.len() implies (#[trigger] d[m]) < rows.len() by {
            assert(d[m] == idx[m]);
        }
        lemma_min_row_is_least(rows, d);
        assert forall|m: int| 0 <= m < idx.len() implies min_row(rows, idx) <= rows[#[trigger] idx[m] as int] by {
            if m < d.len() {
                assert(d[m] == idx[m]);
            }
        }
        if (rows[idx.last() as int] as int) < min_row(rows, d) {
            assert(min_row(rows, idx) == rows[idx[idx.len() - 1] as int]);
        } else {
            let m = choose|m: int| 0 <= m < d.len() && min_row(rows, d) == rows[#[trigger] d[m] as int];
            assert(d[m] == idx[m]);
            assert(min_row(rows, idx) == rows[idx[m] as int]);
        }
    }
}

/// Groups ordered by their smallest start row.
pub open spec fn row_le(rows: Seq<usize>) -> spec_fn((Seq<char>, Seq<usize>), (Seq<char>, Seq<usize>)) -> bool {
    |a: (Seq<char>, Seq<usize>), b: (Seq<char>, Seq<usize>)| min_row(rows, a.1) <= min_row(rows, b.1)
}

pub open spec fn source_ids(sources: Seq<(String, usize)>) -> Seq<Seq<char>> {
    sources.map_values(|c: (String, usize)| c.0@)
}

pub open spec fn source_rows(sources: Seq<(String, usize)>) -> Seq<usize> {
    sources.map_values(|c: (String, usize)| c.1)
}

pub open spec fn group_views(gs: Seq<(String, Vec<usize>)>) -> Seq<(Seq<char>, Seq<usize>)> {
    gs.map_values(|g: (String, Vec<usize>)| (g.0@, g.1@))
}

/// Every group is non-empty and holds positions below `n`.
pub open spec fn groups_within(gs: Seq<(Seq<char>, Seq<usize>)>, n: nat) -> bool {
    forall|g: int| 0 <= g < gs.len() ==> {
        &&& (#[trigger] gs[g]).1.len() > 0
        &&& forall|m: int| 0 <= m < gs[g].1.len() ==> (#[trigger] gs[g].1[m]) < n
    }
}

proof fn lemma_first_index<T>(s: Seq<T>, x: T)
    ensures
        first_index(s, x) is None <==> !s.contains(x),
        first_index(s, x) matches Some(i) ==> 0 <= i < s.len() && s[i] == x
            && forall|j: int| 0 <= j < i ==> #[trigger] s[j] != x,
    decreases s.len(),
{
    if s.len() > 0 {
        lemma_first_index(s.drop_last(), x);
        assert forall|j: int| 0 <= j < s.len() - 1 implies #[trigger] s.drop_last()[j] == s[j] by {}
        if first_index(s.drop_last(), x) is Some {
            let i = first_index(s.drop_last(), x)->0;
            assert forall|j: int| 0 <= j < i implies #[trigger] s[j] != x by {
                assert(s.drop_last()[j] == s[j]);
            }
        } else {
            assert forall|j: int| 0 <= j < s.len() - 1 implies #[trigger] s[j] != x by {
                assert(s.drop_last()[j] == s[j]);
                if s[j] == x {
                    assert(s.drop_last().contains(x));
                }
            }
        }
        if first_index(s, x) is None {
            assert forall|j: int| 0 <= j < s.len() implies s[j] != x by {
                if j < s.len() - 1 {
                    assert(s.drop_last()[j] == s[j]);
                }
            }
        } else {
            if first_index(s.drop_last(), x) is Some {
                assert(s.contains(x));
            }
        }
        if s.drop_last().contains(x) {
            let j = choose|j: int| 0 <= j < s.drop_last().len() && s.drop_last()[j] == x;
            assert(s[j] == x);
        }
    }
}

proof fn lemma_insert_stable_members<T>(s: Seq<T>, x: T, le: spec_fn(T, T) -> bool)
    ensures
        insert_stable(s, x, le).len() == s.len() + 1,
        forall|j: int| 0 <= j < s.len() + 1 ==> {
            let y = #[trigger] insert_stable(s, x, le)[j];
            y == x || s.contains(y)
        },
    decreases s.len(),
{
    if s.len() > 0 && !le(s.last(), x) {
        lemma_insert_stable_members(s.drop_last(), x, le);
        let r = insert_stable(s.drop_last(), x, le);
        assert forall|j: int| 0 <= j < s.len() + 1 implies {
            let y = #[trigger] insert_stable(s, x, le)[j];
            y == x || s.contains(y)
        } by {
            if j < s.len() {
                let y = r[j];
                if y != x {
                    let t = choose|t: int| 0 <= t < s.drop_last().len() && s.drop_last()[t] == y;
                    assert(s[t] == y);
                }
            } else {
                assert(s[s.len() - 1] == s.last());
            }
        }
    } else if s.len() > 0 {
        assert forall|j: int| 0 <= j < s.len() + 1 implies {
            let y = #[trigger] insert_stable(s, x, le)[j];
            y == x || s.contains(y)
        } by {
            if j < s.len() {
                assert(s[j] == insert_stable(s, x, le)[j]);
            }
        }
    }
}

pub open spec fn ordered_by<T>(s: Seq<T>, le: spec_fn(T, T) -> bool) -> bool {
    forall|i: int, j: int| 0 <= i < j < s.len() ==> le(#[trigger] s[i], #[trigger] s[j])
}

pub open spec fn total_preorder<T>(le: spec_fn(T, T) -> bool) -> bool {
    &&& forall|a: T, b: T| #[trigger] le(a, b) || le(b, a)
    &&& forall|a: T, b: T, c: T| #[trigger] le(a, b) && #[trigger] le(b, c) ==> le(a, c)
}

proof fn lemma_insert_stable_ordered<T>(s: Seq<T>, x: T, le: spec_fn(T, T) -> bool)
    requires
        total_preorder(le),
        ordered_by(s, le),
    ensures
        ordered_by(insert_stable(s, x, le), le),
    decreases s.len(),
{
    if s.len() == 0 {
    } else if le(s.last(), x) {
        let r = s.push(x);
        assert forall|i: int, j: int| 0 <= i < j < r.len() implies le(#[trigger] r[i], #[trigger] r[j]) by {
            if j == s.len() {
                if i < s.len() - 1 {
                    assert(le(s[i], s[s.len() - 1]));
                    assert(le(s[i], s.last()) && le(s.last(), x));
                }
            } else {
                assert(r[i] == s[i] && r[j] == s[j]);
            }
        }
    } else {
        let d = s.drop_last();
        assert forall|i: int, j: int| 0 <= i < j < d.len() implies le(#[trigger] d[i], #[trigger] d[j]) by {
            assert(d[i] == s[i] && d[j] == s[j]);
        }
        lemma_insert_stable_ordered(d, x, le);
        lemma_insert_stable_members(d, x, le);
        let q = insert_stable(d, x, le);
        let r = q.push(s.last());
        assert(le(x, s.last()) || le(s.last(), x));
        assert forall|i: int, j: int| 0 <= i < j < r.len() implies le(#[trigger] r[i], #[trigger] r[j]) by {
            if j == q.len() {
                let y = q[i];
                if y != x {
                    let t = choose|t: int| 0 <= t < d.len() && d[t] == y;
                    assert(le(s[t], s[s.len() - 1]));
                }
            } else {
                assert(r[i] == q[i] && r[j] == q[j]);
            }
        }
    }
}

proof fn lemma_sort_stable_ordered<T>(s: Seq<T>, le: spec_fn(T, T) -> bool)
    requires
        total_preorder(le),
    ensures
        ordered_by(sort_stable(s, le), le),
    decreases s.len(),
{
    if s.len() > 0 {
        lemma_sort_stable_ordered(s.drop_last(), le);
        lemma_insert_stable_ordered(sort_stable(s.drop_last(), le), s.last(), le);
    }
}

/// The source groups come out ordered by their smallest start row.
proof fn lemma_groups_ordered_by_first_row(sources: Seq<(String, usize)>)
    ensures
        ordered_by(sort_stable(source_groups(source_ids(sources)), row_le(source_rows(sources))), row_le(source_rows(sources))),
{
    let le = row_le(source_rows(sources));
    assert forall|a: (Seq<char>, Seq<usize>), b: (Seq<char>, Seq<usize>)| #[trigger] le(a, b) || le(b, a) by {}
    assert forall|a: (Seq<char>, Seq<usize>), b: (Seq<char>, Seq<usize>), c: (Seq<char>, Seq<usize>)|
        #[trigger] le(a, b) && #[trigger] le(b, c) implies le(a, c) by {}
    lemma_sort_stable_ordered(source_groups(source_ids(sources)), le);
}

/// Groups that partition the chunk positions by id: distinct ids, each
/// position in the group of its id, in increasing order, and every position
/// in some group.
pub open spec fn partitions_by_id(gs: Seq<(Seq<char>, Seq<usize>)>, ids: Seq<Seq<char>>) -> bool {
    &&& forall|g: int, h: int| 0 <= g < h < gs.len() ==> (#[trigger] gs[g]).0 != (#[trigger] gs[h]).0
    &&& forall|g: int, m: int| 0 <= g < gs.len() && 0 <= m < gs[g].1.len() ==> {
        &&& (#[trigger] gs[g].1[m]) < ids.len()
        &&& ids[gs[g].1[m] as int] == gs[g].0
    }
    &&& forall|g: int, m: int, t: int| 0 <= g < gs.len() && 0 <= m < t < gs[g].1.len()
        ==> (#[trigger] gs[g].1[m]) < (#[trigger] gs[g].1[t])
    &&& forall|i: int| 0 <= i < ids.len() ==> #[trigger] holds_position(gs, i)
}

/// Some group holds position `i`.
pub open spec fn holds_position(gs: Seq<(Seq<char>, Seq<usize>)>, i: int) -> bool {
    exists|g: int, m: int| 0 <= g < gs.len() && 0 <= m < gs[g].1.len() && #[trigger] gs[g].1[m] == i
}

proof fn lemma_source_groups_partition(ids: Seq<Seq<char>>)
    requires
        ids.len() <= usize::MAX,
    ensures
        partitions_by_id(source_groups(ids), ids),
        forall|g: int| 0 <= g < source_groups(ids).len() ==> (#[trigger] source_groups(ids)[g]).1.len() > 0,
    decreases ids.len(),
{
    if ids.len() > 0 {
        let d = ids.drop_last();
        let prev = source_groups(d);
        lemma_source_groups_partition(d);
        let n = ids.len();
        let i = (n - 1) as usize;
        let keys = group_keys(prev);
        lemma_first_index(keys, ids.last());
        let gs = source_groups(ids);
        match first_index(keys, ids.last()) {
            Some(k) => {
                assert(gs == prev.update(k, (prev[k].0, prev[k].1.push(i))));
                assert(keys[k] == prev[k].0);
                assert forall|g: int, h: int| 0 <= g < h < gs.len() implies (#[trigger] gs[g]).0 != (#[trigger] gs[h]).0 by {
                    assert(gs[g].0 == prev[g].0 && gs[h].0 == prev[h].0);
                }
                assert forall|g: int, m: int| 0 <= g < gs.len() && 0 <= m < gs[g].1.len() implies {
                    &&& (#[trigger] gs[g].1[m]) < ids.len()
                    &&& ids[gs[g].1[m] as int] == gs[g].0
                } by {
                    if g == k && m == prev[k].1.len() {
                        assert(gs[k].1 == prev[k].1.push(i));
                        assert(gs[k].1[m] == i);
                        assert(ids[i as int] == ids.last());
                    } else {
                        assert(gs[g].1[m] == prev[g].1[m]);
                        assert(prev[g].1[m] < d.len());
                        assert(d[prev[g].1[m] as int] == ids[prev[g].1[m] as int]);
                    }
                }
                assert forall|g: int, m: int, t: int| 0 <= g < gs.len() && 0 <= m < t < gs[g].1.len()
                    implies (#[trigger] gs[g].1[m]) < (#[trigger] gs[g].1[t]) by {
                    assert(gs[g].1[m] == prev[g].1[m]);
                    if g == k && t == prev[k].1.len() {
                        assert(gs[k].1 == prev[k].1.push(i));
                        assert(gs[k].1[t] == i);
                        assert(prev[g].1[m] < d.len());
                    } else {
                        assert(gs[g].1[t] == prev[g].1[t]);
                    }
                }
                assert forall|j: int| 0 <= j < ids.len() implies #[trigger] holds_position(gs, j) by {
                    if j == n - 1 {
                        assert(gs[k].1[prev[k].1.len() as int] == j);
                    } else {
                        assert(holds_position(prev, j));
                        let (g, m) = choose|g: int, m: int|
                            0 <= g < prev.len() && 0 <= m < prev[g].1.len() && #[trigger] prev[g].1[m] == j;
                        assert(gs[g].1[m] == j);
                    }
                }
            },
            None => {
                assert(gs == prev.push((ids.last(), seq![i])));
                assert forall|g: int, h: int| 0 <= g < h < gs.len() implies (#[trigger] gs[g]).0 != (#[trigger] gs[h]).0 by {
                    if h == prev.len() {
                        assert(keys[g] == prev[g].0);
                    }
                }
                assert forall|g: int, m: int| 0 <= g < gs.len() && 0 <= m < gs[g].1.len() implies {
                    &&& (#[trigger] gs[g].1[m]) < ids.len()
                    &&& ids[gs[g].1[m] as int] == gs[g].0
                } by {
                    if g < prev.len() {
                        assert(gs[g] == prev[g]);
                        assert(d[prev[g].1[m] as int] == ids[prev[g].1[m] as int]);
                    }
                }
                assert forall|g: int, m: int, t: int| 0 <= g < gs.len() && 0 <= m < t < gs[g].1.len()
                    implies (#[trigger] gs[g].1[m]) < (#[trigger] gs[g].1[t]) by {
                    if g < prev.len() {
                        assert(gs[g] == prev[g]);
                    }
                }
                assert forall|j: int| 0 <= j < ids.len() implies #[trigger] holds_position(gs, j) by {
                    if j == n - 1 {
                        assert(gs[prev.len() as int].1[0] == j);
                    } else {
                        assert(holds_position(prev, j));
                        let (g, m) = choose|g: int, m: int|
                            0 <= g < prev.len() && 0 <= m < prev[g].1.len() && #[trigger] prev[g].1[m] == j;
                        assert(gs[g] == prev[g]);
                        assert(gs[g].1[m] == j);
                    }
                }
            },
        }
    }
}

proof fn lemma_insert_stable_keeps<T>(s: Seq<T>, x: T, le: spec_fn(T, T) -> bool)
    ensures
        insert_stable(s, x, le).contains(x),
        forall|j: int| 0 <= j < s.len() ==> insert_stable(s, x, le).contains(#[trigger] s[j]),
    decreases s.len(),
{
    let r = insert_stable(s, x, le);
    if s.len() == 0 {
        assert(r[0] == x);
    } else if le(s.last(), x) {
        assert(r[s.len() as int] == x);
        assert forall|j: int| 0 <= j < s.len() implies r.contains(#[trigger] s[j]) by {
            assert(r[j] == s[j]);
        }
    } else {
        let d = s.drop_last();
        lemma_insert_stable_keeps(d, x, le);
        let q = insert_stable(d, x, le);
        assert(r == q.push(s.last()));
        let t = choose|t: int| 0 <= t < q.len() && q[t] == x;
        assert(r[t] == x);
        assert forall|j: int| 0 <= j < s.len() implies r.contains(#[trigger] s[j]) by {
            if j == s.len() - 1 {
                assert(r[q.len() as int] == s[j]);
            } else {
                assert(d[j] == s[j]);
                assert(q.contains(d[j]));
                let u = choose|u: int| 0 <= u < q.len() && q[u] == d[j];
                assert(r[u] == s[j]);
            }
        }
    }
}

proof fn lemma_sort_stable_members<T>(s: Seq<T>, le: spec_fn(T, T) -> bool)
    ensures
        sort_stable(s, le).len() == s.len(),
        forall|j: int| 0 <= j < s.len() ==> s.contains(#[trigger] sort_stable(s, le)[j]),
        forall|j: int| 0 <= j < s.len() ==> sort_stable(s, le).contains(#[trigger] s[j]),
    decreases s.len(),
{
    if s.len() > 0 {
        let d = s.drop_last();
        lemma_sort_stable_members(d, le);
        let q = sort_stable(d, le);
        lemma_insert_stable_members(q, s.last(), le);
        lemma_insert_stable_keeps(q, s.last(), le);
        let r = sort_stable(s, le);
        assert forall|j: int| 0 <= j < s.len() implies s.contains(#[trigger] r[j]) by {
            if r[j] != s.last() {
                let u = choose|u: int| 0 <= u < q.len() && q[u] == r[j];
                assert(d.contains(q[u]));
                let v = choose|v: int| 0 <= v < d.len() && d[v] == q[u];
                assert(s[v] == r[j]);
            } else {
                assert(s[s.len() - 1] == r[j]);
            }
        }
        assert forall|j: int| 0 <= j < s.len() implies r.contains(#[trigger] s[j]) by {
            if j < s.len() - 1 {
                assert(d[j] == s[j]);
                assert(q.contains(d[j]));
                let u = choose|u: int| 0 <= u < q.len() && q[u] == d[j];
                assert(r.contains(q[u]));
            } else {
                assert(s[j] == s.last());
            }
        }
    }
}

pub open spec fn keys_distinct(gs: Seq<(Seq<char>, Seq<usize>)>) -> bool {
    forall|g: int, h: int| 0 <= g < h < gs.len() ==> (#[trigger] gs[g]).0 != (#[trigger] gs[h]).0
}

proof fn lemma_insert_stable_distinct(
    s: Seq<(Seq<char>, Seq<usize>)>,
    x: (Seq<char>, Seq<usize>),
    le: spec_fn((Seq<char>, Seq<usize>), (Seq<char>, Seq<usize>)) -> bool,
)
    requires
        keys_distinct(s),
        forall|j: int| 0 <= j < s.len() ==> (#[trigger] s[j]).0 != x.0,
    ensures
        keys_distinct(insert_stable(s, x, le)),
    decreases s.len(),
{
    let r = insert_stable(s, x, le);
    if s.len() == 0 {
    } else if le(s.last(), x) {
        assert forall|g: int, h: int| 0 <= g < h < r.len() implies (#[trigger] r[g]).0 != (#[trigger] r[h]).0 by {
            assert(r[g] == s[g]);
            if h < s.len() {
                assert(r[h] == s[h]);
            }
        }
    } else {
        let d = s.drop_last();
        assert forall|g: int, h: int| 0 <= g < h < d.len() implies (#[trigger] d[g]).0 != (#[trigger] d[h]).0 by {
            assert(d[g] == s[g] && d[h] == s[h]);
        }
        assert forall|j: int| 0 <= j < d.len() implies (#[trigger] d[j]).0 != x.0 by {
            assert(d[j] == s[j]);
        }
        lemma_insert_stable_distinct(d, x, le);
        lemma_insert_stable_members(d, x, le);
        let q = insert_stable(d, x, le);
        assert(r == q.push(s.last()));
        assert forall|g: int, h: int| 0 <= g < h < r.len() implies (#[trigger] r[g]).0 != (#[trigger] r[h]).0 by {
            assert(r[g] == q[g]);
            if h < q.len() {
                assert(r[h] == q[h]);
            } else {
                let y = q[g];
                if y == x {
                    assert(s[s.len() - 1].0 != x.0);
                } else {
                    let t = choose|t: int| 0 <= t < d.len() && d[t] == y;
                    assert(s[t] == y);
                    assert(s[t].0 != s[s.len() - 1].0);
                }
            }
        }
    }
}

proof fn lemma_sort_stable_distinct(
    s: Seq<(Seq<char>, Seq<usize>)>,
    le: spec_fn((Seq<char>, Seq<usize>), (Seq<char>, Seq<usize>)) -> bool,
)
    requires
        keys_distinct(s),
    ensures
        keys_distinct(sort_stable(s, le)),
    decreases s.len(),
{
    if s.len() > 0 {
        let d = s.drop_last();
        assert forall|g: int, h: int| 0 <= g < h < d.len() implies (#[trigger] d[g]).0 != (#[trigger] d[h]).0 by {
            assert(d[g] == s[g] && d[h] == s[h]);
        }
        lemma_sort_stable_distinct(d, le);
        lemma_sort_stable_members(d, le);
        let q = sort_stable(d, le);
        assert forall|j: int| 0 <= j < q.len() implies (#[trigger] q[j]).0 != s.last().0 by {
            let t = choose|t: int| 0 <= t < d.len() && d[t] == q[j];
            assert(s[t] == q[j]);
            assert(s[s.len() - 1] == s.last());
        }
        lemma_insert_stable_distinct(q, s.last(), le);
    }
}

/// The groups that grouping `sources` by source gives.
pub open spec fn grouped_sources(sources: Seq<(String, usize)>) -> Seq<(Seq<char>, Seq<usize>)> {
    sort_stable(source_groups(source_ids(sources)), row_le(source_rows(sources)))
}

/// Sorting sections by start line keeps the same sections and puts them in
/// ascending order of start line.
pub proof fn lemma_sort_by_start_law(s: Seq<SectionView>)
    ensures
        sort_by_start(s).len() == s.len(),
        forall|i: int, j: int| 0 <= i < j < s.len()
            ==> (#[trigger] sort_by_start(s)[i]).start_line <= (#[trigger] sort_by_start(s)[j]).start_line,
        forall|j: int| 0 <= j < s.len() ==> s.contains(#[trigger] sort_by_start(s)[j]),
        forall|j: int| 0 <= j < s.len() ==> sort_by_start(s).contains(#[trigger] s[j]),
{
    let le = start_le();
    assert forall|a: SectionView, b: SectionView| #[trigger] le(a, b) || le(b, a) by {}
    assert forall|a: SectionView, b: SectionView, c: SectionView| #[trigger] le(a, b) && #[trigger] le(b, c) implies le(a, c) by {}
    lemma_sort_stable_ordered(s, le);
    lemma_sort_stable_members(s, le);
    let r = sort_by_start(s);
    assert forall|i: int, j: int| 0 <= i < j < s.len() implies (#[trigger] r[i]).start_line <= (#[trigger] r[j]).start_line by {
        assert(le(r[i], r[j]));
    }
}

/// Grouping by source partitions the chunk positions by group id (distinct
/// ids; each position in the group of its id, in increasing order within
/// the group; every position in some group), and the groups come ordered by
/// their smallest start row.
pub proof fn lemma_group_by_source_law(sources: Seq<(String, usize)>)
    requires
        sources.len() <= usize::MAX,
    ensures
        partitions_by_id(
            sort_stable(source_groups(source_ids(sources)), row_le(source_rows(sources))),
            source_ids(sources),
        ),
        ordered_by(
            sort_stable(source_groups(source_ids(sources)), row_le(source_rows(sources))),
            row_le(source_rows(sources)),
        ),
        forall|g: int, h: int, b: int| 0 <= g < h < grouped_sources(sources).len() && 0 <= b < grouped_sources(sources)[h].1.len()
            ==> starts_by(source_rows(sources), #[trigger] grouped_sources(sources)[g].1,
                source_rows(sources)[#[trigger] grouped_sources(sources)[h].1[b] as int] as int),
{
    let ids = source_ids(sources);
    let le = row_le(source_rows(sources));
    let s = source_groups(ids);
    let r = sort_stable(s, le);
    lemma_source_groups_partition(ids);
    lemma_sort_stable_members(s, le);
    lemma_sort_stable_distinct(s, le);
    lemma_groups_ordered_by_first_row(sources);
    let rows = source_rows(sources);
    assert forall|g: int, h: int, b: int| 0 <= g < h < r.len() && 0 <= b < r[h].1.len()
        implies starts_by(rows, #[trigger] r[g].1, rows[#[trigger] r[h].1[b] as int] as int) by {
        let tg = choose|t: int| 0 <= t < s.len() && s[t] == r[g];
        let th = choose|t: int| 0 <= t < s.len() && s[t] == r[h];
        assert(s[tg].1.len() > 0 && s[th].1.len() > 0);
        assert forall|m: int| 0 <= m < r[g].1.len() implies (#[trigger] r[g].1[m]) < rows.len() by {
            assert(s[tg].1[m] == r[g].1[m]);
        }
        assert forall|m: int| 0 <= m < r[h].1.len() implies (#[trigger] r[h].1[m]) < rows.len() by {
            assert(s[th].1[m] == r[h].1[m]);
        }
        lemma_min_row_is_least(rows, r[g].1);
        lemma_min_row_is_least(rows, r[h].1);
        assert(le(r[g], r[h]));
        let a = choose|m: int| 0 <= m < r[g].1.len() && min_row(rows, r[g].1) == rows[#[trigger] r[g].1[m] as int];
        assert(rows[r[g].1[a] as int] <= rows[r[h].1[b] as int]);
    }
    assert forall|g: int, m: int| 0 <= g < r.len() && 0 <= m < r[g].1.len() implies {
        &&& (#[trigger] r[g].1[m]) < ids.len()
        &&& ids[r[g].1[m] as int] == r[g].0
    } by {
        let t = choose|t: int| 0 <= t < s.len() && s[t] == r[g];
        assert(s[t].1[m] == r[g].1[m]);
    }
    assert forall|g: int, m: int, t: int| 0 <= g < r.len() && 0 <= m < t < r[g].1.len()
        implies (#[trigger] r[g].1[m]) < (#[trigger] r[g].1[t]) by {
        let u = choose|u: int| 0 <= u < s.len() && s[u] == r[g];
        assert(s[u].1[m] == r[g].1[m] && s[u].1[t] == r[g].1[t]);
    }
    assert forall|i: int| 0 <= i < ids.len() implies #[trigger] holds_position(r, i) by {
        assert(holds_position(s, i));
        let (g, m) = choose|g: int, m: int| 0 <= g < s.len() && 0 <= m < s[g].1.len() && #[trigger] s[g].1[m] == i;
        assert(r.contains(s[g]));
        let u = choose|u: int| 0 <= u < r.len() && r[u] == s[g];
        assert(r[u].1[m] == i);
    }
}

fn min_row_of(rows: &[usize], idx: &Vec<usize>) -> (m: usize)
    requires
        idx.len() > 0,
        forall|j: int| 0 <= j < idx.len() ==> (#[trigger] idx@[j]) < rows.len(),
    ensures
        m == min_row(rows@, idx@),
{
    let mut m = rows[idx[0]];
    proof {
        assert(idx@.take(1).drop_last() =~= Seq::<usize>::empty());
        assert(min_row(rows@, idx@.take(1)) == rows@[idx@[0] as int]);
    }
    for j in 1..idx.len()
        invariant
            idx.len() > 0,
            forall|t: int| 0 <= t < idx.len() ==> (#[trigger] idx@[t]) < rows.len(),
            m == min_row(rows@, idx@.take(j as int)),
    {
        proof {
            assert(idx@.take(j + 1).drop_last() =~= idx@.take(j as int));
            assert(idx@.take(j + 1).last() == idx@[j as int]);
        }
        let r = rows[idx[j]];
        if r < m {
            m = r;
        }
    }
    proof {
        assert(idx@.take(idx.len() as int) =~= idx@);
    }
    m
}

fn find_group(gs: &Vec<(String, Vec<usize>)>, id: &String) -> (res: Option<usize>)
    ensures
        match res {
            Some(k) => first_index(group_keys(group_views(gs@)), id@) == Some(k as int),
            None => first_index(group_keys(group_views(gs@)), id@) is None,
        },
{
    let ghost keys = group_keys(group_views(gs@));
    proof {
        lemma_first_index(keys, id@);
    }
    for j in 0..gs.len()
        invariant
            keys == group_keys(group_views(gs@)),
            keys.len() == gs.len(),
            forall|k: int| 0 <= k < j ==> #[trigger] keys[k] != id@,
    {
        if gs[j].0 == *id {
            proof {
                lemma_first_index(keys, id@);
                assert(keys[j as int] == id@);
                let fi = first_index(keys, id@);
                if fi is Some {
                    if fi->0 < j {
                        assert(keys[fi->0] != id@);
                    }
                }
                if fi is None {
                    assert(keys.contains(id@));
                }
            }
            return Some(j);
        }
    }
    proof {
        lemma_first_index(keys, id@);
        let fi = first_index(keys, id@);
        if fi is Some {
            assert(keys[fi->0] != id@);
        }
    }
    None
}

fn insert_group(v: &mut Vec<(String, Vec<usize>)>, x: (String, Vec<usize>), rows: &[usize])
    requires
        groups_within(group_views(old(v)@), rows.len() as nat),
        groups_within(seq![(x.0@, x.1@)], rows.len() as nat),
    ensures
        group_views(final(v)@) == insert_stable(group_views(old(v)@), (x.0@, x.1@), row_le(rows@)),
        groups_within(group_views(final(v)@), rows.len() as nat),
    decreases old(v).len(),
{
    let ghost v0 = group_views(v@);
    let ghost xv = (x.0@, x.1@);
    proof {
        assert(seq![xv][0] == xv);
        lemma_insert_stable_members(v0, xv, row_le(rows@));
    }
    if v.len() == 0 {
        v.push(x);
        proof {
            assert(group_views(v@) =~= seq![xv]);
        }
    } else {
        let last = v.len() - 1;
        proof {
            assert(v0[last as int] == (v@[last as int].0@, v@[last as int].1@));
        }
        let a = min_row_of(rows, &v[last].1);
        let b = min_row_of(rows, &x.1);
        if a <= b {
            v.push(x);
            proof {
                assert(group_views(v@) =~= v0.push(xv));
            }
        } else {
            let l = v.pop().unwrap();
            let ghost lv = (l.0@, l.1@);
            proof {
                assert(group_views(v@) =~= v0.drop_last());
                assert(v0.last() == lv);
                assert forall|g: int| 0 <= g < v0.len() - 1 implies #[trigger] v0.drop_last()[g] == v0[g] by {}
            }
            insert_group(v, x, rows);
            let ghost after = group_views(v@);
            v.push(l);
            proof {
                assert(group_views(v@) =~= after.push(lv));
                assert(!(row_le(rows@))(v0.last(), xv));
            }
        }
    }
    proof {
        let r = group_views(v@);
        assert(r == insert_stable(v0, xv, row_le(rows@)));
        assert forall|g: int| 0 <= g < r.len() implies {
            &&& (#[trigger] r[g]).1.len() > 0
            &&& forall|m: int| 0 <= m < r[g].1.len() ==> (#[trigger] r[g].1[m]) < rows.len()
        } by {
            let y = insert_stable(v0, xv, row_le(rows@))[g];
            if y != xv {
                let t = choose|t: int| 0 <= t < v0.len() && v0[t] == y;
                assert(v0[t] == y);
            }
        }
    }
}

/// Groups chunks by source group. `sources[i]` is the source group id and
/// the first source row of chunk `i`. Each group holds the positions of its
/// chunks in order; the groups come in order of first appearance, stably
/// sorted by their smallest start row.
pub fn group_by_source(sources: &[(String, usize)]) -> (res: Vec<(String, Vec<usize>)>)
    ensures
        group_views(res@) == sort_stable(source_groups(source_ids(sources@)), row_le(source_rows(sources@))),
        partitions_by_id(group_views(res@), source_ids(sources@)),
        forall|g: int, h: int, b: int| #![trigger res@[g], res@[h].1@[b]] 0 <= g < h < res.len() && 0 <= b < res@[h].1.len()
            ==> starts_by(source_rows(sources@), res@[g].1@, source_rows(sources@)[res@[h].1@[b] as int] as int),
{
    proof {
        lemma_group_by_source_law(sources@);
    }
    let ghost ids = source_ids(sources@);
    let ghost rows_v = source_rows(sources@);
    let mut rows: Vec<usize> = Vec::new();
    for i in 0..sources.len()
        invariant
            rows@ == rows_v.take(i as int),
            rows_v == source_rows(sources@),
    {
        rows.push(sources[i].1);
        proof {
            assert(rows@ =~= rows_v.take(i + 1));
        }
    }
    proof {
        assert(rows_v.take(sources.len() as int) =~= rows_v);
    }
    let mut groups: Vec<(String, Vec<usize>)> = Vec::new();
    for i in 0..sources.len()
        invariant
            ids == source_ids(sources@),
            rows@ == rows_v,
            rows_v.len() == sources.len(),
            group_views(groups@) == source_groups(ids.take(i as int)),
            groups_within(group_views(groups@), i as nat),
    {
        let ghost prev = group_views(groups@);
        proof {
            assert(ids.take(i + 1).drop_last() =~= ids.take(i as int));
            assert(ids.take(i + 1).last() == sources@[i as int].0@);
        }
        match find_group(&groups, &sources[i].0) {
            Some(k) => {
                proof {
                    lemma_first_index(group_keys(prev), sources@[i as int].0@);
                }
                let (key, mut members) = groups.remove(k);
                members.push(i);
                groups.insert(k, (key, members));
                proof {
                    assert(prev[k as int].0 == group_keys(prev)[k as int]);
                    assert(group_views(groups@) =~= prev.update(k as int, (prev[k as int].0, prev[k as int].1.push(i))));
                    let gv = group_views(groups@);
                    assert forall|g: int| 0 <= g < gv.len() implies {
                        &&& (#[trigger] gv[g]).1.len() > 0
                        &&& forall|m: int| 0 <= m < gv[g].1.len() ==> (#[trigger] gv[g].1[m]) < i + 1
                    } by {
                        if g == k {
                            assert forall|m: int| 0 <= m < gv[g].1.len() implies (#[trigger] gv[g].1[m]) < i + 1 by {
                                if m < prev[g].1.len() {
                                    assert(gv[g].1[m] == prev[g].1[m]);
                                }
                            }
                        } else {
                            assert(gv[g] == prev[g]);
                        }
                    }
                }
            },
            None => {
                let mut members: Vec<usize> = Vec::new();
                members.push(i);
                let key = copy_string(&sources[i].0);
                groups.push((key, members));
                proof {
                    assert(group_views(groups@) =~= prev.push((sources@[i as int].0@, seq![i])));
                    let gv = group_views(groups@);
                    assert forall|g: int| 0 <= g < gv.len() implies {
                        &&& (#[trigger] gv[g]).1.len() > 0
                        &&& forall|m: int| 0 <= m < gv[g].1.len() ==> (#[trigger] gv[g].1[m]) < i + 1
                    } by {
                        if g < prev.len() {
                            assert(gv[g] == prev[g]);
                        }
                    }
                }
            },
        }
    }
    proof {
        assert(ids.take(sources.len() as int) =~= ids);
    }
    let ghost all = group_views(groups@);
    let ghost le = row_le(rows_v);
    let mut rest = groups;
    let mut sorted: Vec<(String, Vec<usize>)> = Vec::new();
    let ghost mut k: int = 0;
    proof {
        assert(all.subrange(0, all.len() as int) =~= all);
        assert(sort_stable(all.take(0), le) =~= Seq::<(Seq<char>, Seq<usize>)>::empty());
    }
    while rest.len() > 0
        invariant
            0 <= k <= all.len(),
            rows@ == rows_v,
            le == row_le(rows_v),
            groups_within(all, rows.len() as nat),
            group_views(rest@) == all.subrange(k, all.len() as int),
            group_views(sorted@) == sort_stable(all.take(k), le),
            groups_within(group_views(sorted@), rows.len() as nat),
        decreases rest.len(),
    {
        let ghost r0 = group_views(rest@);
        let ghost re = rest@;
        let x = rest.remove(0);
        proof {
            assert(rest@ =~= re.subrange(1, re.len() as int));
            assert(group_views(rest@) =~= r0.subrange(1, r0.len() as int));
            assert(r0.len() == all.len() - k);
            assert(r0[0] == all[k]);
            assert(r0[0] == (x.0@, x.1@));
            assert(group_views(rest@) =~= all.subrange(k + 1, all.len() as int));
            assert(all.take(k + 1).drop_last() =~= all.take(k));
            assert(all.take(k + 1).last() == all[k]);
            assert(seq![(x.0@, x.1@)][0] == all[k]);
        }
        insert_group(&mut sorted, x, rows.as_slice());
        proof {
            k = k + 1;
        }
    }
    proof {
        assert(all.take(k) =~= all);
    }
    proof {
        let gv = group_views(sorted@);
        assert(gv == grouped_sources(sources@));
        assert forall|g: int, h: int, b: int| #![trigger sorted@[g], sorted@[h].1@[b]] 0 <= g < h < sorted.len() && 0 <= b < sorted@[h].1.len()
            implies starts_by(source_rows(sources@), sorted@[g].1@, source_rows(sources@)[sorted@[h].1@[b] as int] as int) by {
            assert(gv[g].1 == sorted@[g].1@ && gv[h].1 == sorted@[h].1@);
            assert(gv[h].1[b] == sorted@[h].1@[b]);
        }
    }
    sorted
}

// ---------------------------------------------------------------------
// The display document.

pub open spec fn ends_with_newline(t: Seq<char>) -> bool {
    t.len() > 0 && t.last() == '\n'
}

/// Texts one after another, each ended by a newline, with a blank line
/// between consecutive texts.
pub open spec fn texts_block(ts: Seq<Seq<char>>) -> Seq<char>
    decreases ts.len(),
{
    if ts.len() == 0 {
        Seq::empty()
    } else {
        texts_block(ts.drop_last()) + (if ts.len() > 1 { "\n"@ } else { Seq::empty() }) + ts.last()
            + (if ends_with_newline(ts.last()) { Seq::empty() } else { "\n"@ })
    }
}

/// `id (relation)` of each related group.
pub open spec fn related_items(rs: Seq<(Seq<char>, Seq<char>, u32)>) -> Seq<Seq<char>> {
    rs.map_values(|r: (Seq<char>, Seq<char>, u32)| r.0 + " ("@ + r.1 + ")"@)
}

pub open spec fn embedding_only(filter: Option<ChunkPath>) -> bool {
    filter == Some(ChunkPath::Embedding)
}

/// The heading line of a section.
pub open spec fn section_head(s: SectionView) -> Seq<char> {
    if s.entity_name.len() == 0 { "("@ + s.line_info + ")\n"@ } else { s.entity_name + " ("@ + s.line_info + ")\n"@ }
}

/// The kind, group and chunk-path lines of a section.
pub open spec fn kind_group_path_lines(s: SectionView) -> Seq<char> {
    (if s.entity_kind.len() > 0 { "  kind: "@ + s.entity_kind + "\n"@ } else { Seq::empty() })
        + (if s.group_type.len() > 0 { "  group: "@ + s.group_type + "\n"@ } else { Seq::empty() })
        + (if s.chunk_paths.len() > 0 { "  chunk_path: "@ + joined(s.chunk_paths, ", "@) + "\n"@ } else { Seq::empty() })
}

/// The fragment line and, unless the section was not split, the split-reason line.
pub open spec fn fragment_split_lines(s: SectionView) -> Seq<char> {
    (match s.fragment_info {
        Some(fi) => "  "@ + fi + "\n"@,
        None => Seq::empty(),
    }) + (match s.split_reason {
        Some(sr) => if sr != "not_split"@ { "  split_reason: "@ + sr + "\n"@ } else { Seq::empty() },
        None => Seq::empty(),
    })
}

/// The related-groups and keywords lines of a section.
pub open spec fn related_keyword_lines(s: SectionView) -> Seq<char> {
    (if s.related_groups.len() > 0 {
        "  related_groups: "@ + joined(related_items(s.related_groups), ", "@) + "\n"@
    } else {
        Seq::empty()
    }) + (if s.keywords.len() > 0 { "keywords: "@ + joined(s.keywords, ", "@) + "\n"@ } else { Seq::empty() })
}

/// The metadata lines of a section.
pub open spec fn section_meta(s: SectionView) -> Seq<char> {
    kind_group_path_lines(s) + fragment_split_lines(s) + related_keyword_lines(s)
}

/// The code and natural-language texts of a section.
pub open spec fn section_body(s: SectionView, filter: Option<ChunkPath>) -> Seq<char> {
    (if s.code_texts.len() > 0 { "code:\n"@ + texts_block(s.code_texts) } else { Seq::empty() })
        + (if s.nl_texts.len() > 0 {
            (if s.code_texts.len() > 0 && !embedding_only(filter) { "\n"@ } else { Seq::empty() })
                + (if !embedding_only(filter) { "nl:\n"@ } else { Seq::empty() })
                + texts_block(s.nl_texts)
        } else {
            Seq::empty()
        })
}

/// The text of one section.
pub open spec fn section_text(s: SectionView, filter: Option<ChunkPath>) -> Seq<char> {
    section_head(s) + section_meta(s) + section_body(s, filter)
}

/// The sections separated by `---` lines.
pub open spec fn sections_text(ss: Seq<SectionView>, filter: Option<ChunkPath>) -> Seq<char>
    decreases ss.len(),
{
    if ss.len() == 0 {
        Seq::empty()
    } else {
        sections_text(ss.drop_last(), filter) + (if ss.len() > 1 { "---\n"@ } else { Seq::empty() })
            + section_text(ss.last(), filter)
    }
}

/// The display document of a file: its path, its documentation comment
/// when not blank, a `---` line, then the sections separated by `---`
/// lines; an error when there is no section.
pub open spec fn display_doc_spec(
    display_path: Seq<char>,
    file_doc: Option<Seq<char>>,
    ss: Seq<SectionView>,
    filter: Option<ChunkPath>,
) -> Result<Seq<char>, Seq<char>> {
    if ss.len() == 0 {
        Err("No display content found in chunks"@)
    } else {
        Ok(display_path + "\n"@
            + (match file_doc {
                Some(d) => if trim_spec(d).len() > 0 { "doc:\n"@ + d + "\n"@ } else { Seq::empty() },
                None => Seq::empty(),
            })
            + "---\n"@ + sections_text(ss, filter))
    }
}

fn push_texts_block(out: &mut String, ts: &Vec<String>)
    ensures
        final(out)@ == old(out)@ + texts_block(string_views(ts@)),
{
    let ghost tv = string_views(ts@);
    let ghost start = out@;
    for i in 0..ts.len()
        invariant
            tv == string_views(ts@),
            out@ == start + texts_block(tv.take(i as int)),
    {
        proof {
            assert(tv.take(i + 1).drop_last() =~= tv.take(i as int));
            assert(tv.take(i + 1).last() == ts@[i as int]@);
        }
        if i > 0 {
            push_str(out, "\n");
        }
        push_str(out, ts[i].as_str());
        let c = chars_of(ts[i].as_str());
        if !(c.len() > 0 && c[c.len() - 1] == '\n') {
            push_str(out, "\n");
        }
        proof {
            assert(out@ =~= start + texts_block(tv.take(i + 1)));
        }
    }
    proof {
        assert(tv.take(ts.len() as int) =~= tv);
    }
}

fn related_strings(rs: &Vec<(String, String, u32)>) -> (res: Vec<String>)
    ensures
        string_views(res@) == related_items(related_views(rs@)),
{
    let mut res: Vec<String> = Vec::new();
    for i in 0..rs.len()
        invariant
            string_views(res@) == related_items(related_views(rs@.take(i as int))),
    {
        let mut item = copy_string(&rs[i].0);
        push_str(&mut item, " (");
        push_str(&mut item, rs[i].1.as_str());
        push_str(&mut item, ")");
        proof {
            assert(item@ == rs@[i as int].0@ + " ("@ + rs@[i as int].1@ + ")"@);
            assert(related_views(rs@.take(i + 1)) =~= related_views(rs@.take(i as int)).push(related_view(rs@[i as int])));
        }
        let ghost before = res@;
        res.push(item);
        proof {
            assert(string_views(res@) =~= string_views(before).push(item@));
            assert(string_views(res@) =~= related_items(related_views(rs@.take(i + 1))));
        }
    }
    proof {
        assert(rs@.take(rs.len() as int) =~= rs@);
    }
    res
}

fn push_head(out: &mut String, s: &DisplaySection)
    ensures
        final(out)@ == old(out)@ + section_head(section_view(*s)),
{
    let ghost start = out@;
    if s.entity_name.as_str().is_empty() {
        push_str(out, "(");
    } else {
        push_str(out, s.entity_name.as_str());
        push_str(out, " (");
    }
    push_str(out, s.line_info.as_str());
    push_str(out, ")\n");
    proof {
        assert(out@ =~= start + section_head(section_view(*s)));
    }
}

fn push_line(out: &mut String, label: &str, value: &str)
    ensures
        final(out)@ == old(out)@ + (label@ + value@ + "\n"@),
{
    let ghost start = out@;
    push_str(out, label);
    push_str(out, value);
    push_str(out, "\n");
    proof {
        assert(out@ =~= start + (label@ + value@ + "\n"@));
    }
}

fn push_meta_a(out: &mut String, s: &DisplaySection)
    ensures
        final(out)@ == old(out)@ + kind_group_path_lines(section_view(*s)),
{
    let ghost start = out@;
    if !s.entity_kind.as_str().is_empty() {
        push_line(out, "  kind: ", s.entity_kind.as_str());
    }
    if !s.group_type.as_str().is_empty() {
        push_line(out, "  group: ", s.group_type.as_str());
    }
    if s.chunk_paths.len() > 0 {
        let j = join_strings(s.chunk_paths.as_slice(), ", ");
        push_line(out, "  chunk_path: ", j.as_str());
    }
    proof {
        assert(out@ =~= start + kind_group_path_lines(section_view(*s)));
    }
}

fn push_meta_b(out: &mut String, s: &DisplaySection)
    ensures
        final(out)@ == old(out)@ + fragment_split_lines(section_view(*s)),
{
    let ghost start = out@;
    match &s.fragment_info {
        Some(fi) => {
            push_line(out, "  ", fi.as_str());
        },
        None => {},
    }
    match &s.split_reason {
        Some(sr) => {
            proof {
                reveal_strlit("not_split");
            }
            let ns = String::from_str("not_split");
            let differs = *sr != ns;
            proof {
                assert(differs == (sr@ != "not_split"@));
            }
            if differs {
                push_line(out, "  split_reason: ", sr.as_str());
            }
        },
        None => {},
    }
    proof {
        assert(out@ =~= start + fragment_split_lines(section_view(*s)));
    }
}

fn push_meta_c(out: &mut String, s: &DisplaySection)
    ensures
        final(out)@ == old(out)@ + related_keyword_lines(section_view(*s)),
{
    let ghost start = out@;
    if s.related_groups.len() > 0 {
        let items = related_strings(&s.related_groups);
        let j = join_strings(items.as_slice(), ", ");
        push_line(out, "  related_groups: ", j.as_str());
    }
    if s.keywords.len() > 0 {
        let j = join_strings(s.keywords.as_slice(), ", ");
        push_line(out, "keywords: ", j.as_str());
    }
    proof {
        assert(out@ =~= start + related_keyword_lines(section_view(*s)));
    }
}

fn push_body(out: &mut String, s: &DisplaySection, filter: Option<ChunkPath>)
    ensures
        final(out)@ == old(out)@ + section_body(section_view(*s), filter),
{
    let ghost start = out@;
    let emb_only = match filter {
        Some(ChunkPath::Embedding) => true,
        _ => false,
    };
    if s.code_texts.len() > 0 {
        push_str(out, "code:\n");
        push_texts_block(out, &s.code_texts);
    }
    if s.nl_texts.len() > 0 {
        if s.code_texts.len() > 0 && !emb_only {
            push_str(out, "\n");
        }
        if !emb_only {
            push_str(out, "nl:\n");
        }
        push_texts_block(out, &s.nl_texts);
    }
    proof {
        assert(out@ =~= start + section_body(section_view(*s), filter));
    }
}

fn push_section(out: &mut String, s: &DisplaySection, filter: Option<ChunkPath>)
    ensures
        final(out)@ == old(out)@ + section_text(section_view(*s), filter),
{
    let ghost start = out@;
    push_head(out, s);
    let ghost a = out@;
    push_meta_a(out, s);
    push_meta_b(out, s);
    push_meta_c(out, s);
    proof {
        assert(out@ =~= a + section_meta(section_view(*s)));
    }
    push_body(out, s, filter);
    proof {
        assert(out@ =~= start + section_text(section_view(*s), filter));
    }
}

/// Renders the display document of a file from its sections:
/// `display_path` is the file's path relative to the source root and
/// `file_doc` its documentation comment, already cleaned of comment markers.
/// Fails when there is no section.
pub fn render_display_doc(
    display_path: &str,
    file_doc: Option<&str>,
    sections: &[DisplaySection],
    filter_path: Option<ChunkPath>,
) -> (res: Result<String, String>)
    ensures
        match res {
            Ok(text) => display_doc_spec(display_path@, match file_doc { Some(d) => Some(d@), None => None },
                section_views(sections@), filter_path) == Ok::<Seq<char>, Seq<char>>(text@),
            Err(e) => display_doc_spec(display_path@, match file_doc { Some(d) => Some(d@), None => None },
                section_views(sections@), filter_path) == Err::<Seq<char>, Seq<char>>(e@),
        },
{
    if sections.len() == 0 {
        return Err(String::from_str("No display content found in chunks"));
    }
    let mut out = String::new();
    push_str(&mut out, display_path);
    push_str(&mut out, "\n");
    match file_doc {
        Some(d) => {
            let c = chars_of(d);
            let t = trim_chars(c.as_slice(), 0, c.len());
            proof {
                assert(c@.subrange(0, c.len() as int) =~= c@);
            }
            if t.len() > 0 {
                push_str(&mut out, "doc:\n");
                push_str(&mut out, d);
                push_str(&mut out, "\n");
            }
        },
        None => {},
    }
    push_str(&mut out, "---\n");
    let ghost head = out@;
    let ghost docv: Option<Seq<char>> = match file_doc { Some(d) => Some(d@), None => None };
    proof {
        assert(head =~= display_path@ + "\n"@
            + (match docv {
                Some(d) => if trim_spec(d).len() > 0 { "doc:\n"@ + d + "\n"@ } else { Seq::empty() },
                None => Seq::empty(),
            })
            + "---\n"@);
    }
    let ghost sv = section_views(sections@);
    for i in 0..sections.len()
        invariant
            sv == section_views(sections@),
            out@ == head + sections_text(sv.take(i as int), filter_path),
    {
        proof {
            assert(sv.take(i + 1).drop_last() =~= sv.take(i as int));
            assert(sv.take(i + 1).last() == section_view(sections@[i as int]));
        }
        if i > 0 {
            push_str(&mut out, "---\n");
        }
        push_section(&mut out, &sections[i], filter_path);
        proof {
            assert(out@ =~= head + sections_text(sv.take(i + 1), filter_path));
        }
    }
    proof {
        assert(sv.take(sections.len() as int) =~= sv);
    }
    Ok(out)
}

} // verus!
