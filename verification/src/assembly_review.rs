//! Offline assembly review: the call-graph hops attached to recall hits, the
//! line windows handed to the assembler, and the markdown that presents the
//! hits for review.

use vstd::prelude::*;
use std::collections::HashMap;
use crate::bench_data::{ChunkData, forward_slashes, normalize_path};
use crate::fixture::FixtureSpec;
use crate::http::{count_lines, lines_of};
use crate::text::{string_views, push_char, push_i64, push_str, push_usize, decimal_chars, signed_decimal_chars};

verus! {

broadcast use vstd::std_specs::hash::group_hash_axioms;

/// Which text the assembler consumes for a hit.
#[derive(Debug, Clone, Copy, PartialEq, Eq, Structural)]
pub enum ContentMode {
    /// The benchmark chunk text: fully offline and reproducible.
    Chunk,
    /// The real source file under the fixture root, sliced to the chunk's
    /// absolute line range.
    Source,
}

impl ContentMode {
    pub fn label(self) -> (res: &'static str)
        ensures
            res@ == match self {
                ContentMode::Chunk => "chunk"@,
                ContentMode::Source => "source"@,
            },
    {
        match self {
            ContentMode::Chunk => "chunk",
            ContentMode::Source => "source",
        }
    }
}

/// Which recall path feeds the review (embedding only so far).
#[derive(Debug, Clone, Copy, PartialEq, Eq, Structural)]
pub enum RecallMode {
    Emb,
}

impl RecallMode {
    pub fn label(self) -> (res: &'static str)
        ensures
            res@ == "emb"@,
    {
        match self {
            RecallMode::Emb => "emb",
        }
    }
}

/// The benchmark snapshot the review reads: only it carries chunk text with
/// entity structure and call edges.
pub const BASELINE: &'static str = "full_pipeline";

/// One assembly-review export job.
pub struct AssemblyReviewConfig {
    /// Benchmark project name (e.g. `"once_cell"`).
    pub project: &'static str,
    /// Language directory under the scenarios output (e.g. `"rust"`).
    pub language: &'static str,
    /// Fixture used to resolve real source files in source mode.
    pub spec: FixtureSpec,
    /// Number of recall hits rendered per query.
    pub top_k: usize,
    pub content_mode: ContentMode,
    pub recall: RecallMode,
    /// Attach one call-graph hop (callees and callers) to every hit.
    pub expansion: bool,
}

/// One call edge between benchmark entities.
#[derive(Debug, Clone, Copy, PartialEq, Eq, Structural)]
pub struct CallEdge {
    pub caller_entity_id: i64,
    pub callee_entity_id: i64,
}

/// Indices of the edges whose caller is `e`, in edge order.
pub open spec fn caller_edges(edges: Seq<CallEdge>, e: i64) -> Seq<usize>
    decreases edges.len(),
{
    if edges.len() == 0 {
        Seq::empty()
    } else {
        caller_edges(edges.drop_last(), e) + if edges.last().caller_entity_id == e {
            seq![(edges.len() - 1) as usize]
        } else {
            Seq::empty()
        }
    }
}

/// Indices of the edges whose callee is `e`, in edge order.
pub open spec fn callee_edges(edges: Seq<CallEdge>, e: i64) -> Seq<usize>
    decreases edges.len(),
{
    if edges.len() == 0 {
        Seq::empty()
    } else {
        callee_edges(edges.drop_last(), e) + if edges.last().callee_entity_id == e {
            seq![(edges.len() - 1) as usize]
        } else {
            Seq::empty()
        }
    }
}

/// Chunk `i` has `e` as its first (primary) entity.
pub open spec fn has_primary(chunks: Seq<ChunkData>, i: int, e: i64) -> bool {
    0 <= i < chunks.len() && chunks[i].entity_ids@.len() > 0 && chunks[i].entity_ids@[0] == e
}

/// Some chunk before `n` has `e` as its primary entity.
pub open spec fn primary_before(chunks: Seq<ChunkData>, e: i64, n: int) -> bool {
    exists|k: int| 0 <= k < n && #[trigger] has_primary(chunks, k, e)
}

/// Some chunk before `n` lists `e` after its first entity.
pub open spec fn secondary_before(chunks: Seq<ChunkData>, e: i64, n: int) -> bool {
    exists|k: int, j: int| 0 <= k < n && 1 <= j < chunks[k].entity_ids@.len() && #[trigger] chunks[k].entity_ids@[j] == e
}

/// Some chunk lists `e`.
pub open spec fn mentioned(chunks: Seq<ChunkData>, e: i64) -> bool {
    exists|k: int| 0 <= k < chunks.len() && #[trigger] chunks[k].entity_ids@.contains(e)
}

/// Chunk `i` is the chunk an entity resolves to: the first chunk whose
/// primary entity it is, or, when it is no chunk's primary entity, the first
/// chunk that lists it.
pub open spec fn resolves_to(chunks: Seq<ChunkData>, e: i64, i: int) -> bool {
    &&& 0 <= i < chunks.len()
    &&& if primary_before(chunks, e, chunks.len() as int) {
        has_primary(chunks, i, e) && forall|k: int| 0 <= k < i ==> !has_primary(chunks, k, e)
    } else {
        chunks[i].entity_ids@.contains(e) && forall|k: int| 0 <= k < i ==> !(#[trigger] chunks[k].entity_ids@.contains(e))
    }
}

/// Edge list stored under `e`, empty when there is none.
pub open spec fn list_at(m: Map<i64, Vec<usize>>, e: i64) -> Seq<usize> {
    if m.contains_key(e) {
        m[e]@
    } else {
        Seq::empty()
    }
}

/// Call-graph adjacency over benchmark entity ids.
pub struct CallGraph {
    /// caller entity id -> edge indices
    forward: HashMap<i64, Vec<usize>>,
    /// callee entity id -> edge indices
    backward: HashMap<i64, Vec<usize>>,
    /// entity id -> embedding chunk index; the primary entity of a chunk wins
    chunk_of_entity: HashMap<i64, usize>,
}

impl CallGraph {
    /// Indices of the edges leaving `e`.
    pub closed spec fn forward_of(&self, e: i64) -> Seq<usize> {
        list_at(self.forward@, e)
    }

    /// Indices of the edges entering `e`.
    pub closed spec fn backward_of(&self, e: i64) -> Seq<usize> {
        list_at(self.backward@, e)
    }

    /// Chunk an entity resolves to, if any.
    pub closed spec fn chunk_of(&self, e: i64) -> Option<usize> {
        if self.chunk_of_entity@.contains_key(e) {
            Some(self.chunk_of_entity@[e])
        } else {
            None
        }
    }

    /// The adjacency lists index `edges`.
    pub open spec fn edges_from(&self, edges: Seq<CallEdge>) -> bool {
        &&& forall|e: i64| #[trigger] self.forward_of(e) == caller_edges(edges, e)
        &&& forall|e: i64| #[trigger] self.backward_of(e) == callee_edges(edges, e)
    }

    /// The entity-to-chunk map resolves entities of `chunks`.
    pub open spec fn chunks_from(&self, chunks: Seq<ChunkData>) -> bool {
        &&& forall|e: i64| (#[trigger] self.chunk_of(e) is Some) == mentioned(chunks, e)
        &&& forall|e: i64| #[trigger] self.chunk_of(e) is Some ==> resolves_to(chunks, e, self.chunk_of(e)->0 as int)
    }

    /// The graph was built from `edges` and `chunks`.
    pub open spec fn built_from(&self, edges: Seq<CallEdge>, chunks: Seq<ChunkData>) -> bool {
        self.edges_from(edges) && self.chunks_from(chunks)
    }

    /// Adds edge `idx` under key `e`.
    fn add_edge(m: &mut HashMap<i64, Vec<usize>>, e: i64, idx: usize)
        ensures
            forall|k: i64| k != e ==> #[trigger] list_at(final(m)@, k) == list_at(old(m)@, k),
            list_at(final(m)@, e) == list_at(old(m)@, e).push(idx),
            forall|k: i64| #[trigger] final(m)@.contains_key(k) == (old(m)@.contains_key(k) || k == e),
    {
        let mut list = match m.remove(&e) {
            Some(v) => v,
            None => Vec::new(),
        };
        list.push(idx);
        m.insert(e, list);
    }

    /// Builds the adjacency from the call edges and the entity-to-chunk map
    /// from the embedding chunks.
    pub fn build(edges: &[CallEdge], chunks: &[ChunkData]) -> (g: Self)
        ensures
            g.built_from(edges@, chunks@),
    {
        let mut forward: HashMap<i64, Vec<usize>> = HashMap::new();
        let mut backward: HashMap<i64, Vec<usize>> = HashMap::new();
        for idx in 0..edges.len()
            invariant
                forall|e: i64| #[trigger] list_at(forward@, e) == caller_edges(edges@.take(idx as int), e),
                forall|e: i64| #[trigger] list_at(backward@, e) == callee_edges(edges@.take(idx as int), e),
        {
            let edge = edges[idx];
            proof {
                assert(edges@.take(idx + 1).drop_last() =~= edges@.take(idx as int));
                assert(edges@.take(idx + 1).last() == edge);
            }
            Self::add_edge(&mut forward, edge.caller_entity_id, idx);
            Self::add_edge(&mut backward, edge.callee_entity_id, idx);
            proof {
                assert forall|e: i64| #[trigger] list_at(forward@, e) == caller_edges(edges@.take(idx + 1), e) by {
                    if e == edge.caller_entity_id {
                        assert(list_at(forward@, e) =~= caller_edges(edges@.take(idx + 1), e));
                    } else {
                        assert(caller_edges(edges@.take(idx + 1), e) =~= caller_edges(edges@.take(idx as int), e));
                    }
                }
                assert forall|e: i64| #[trigger] list_at(backward@, e) == callee_edges(edges@.take(idx + 1), e) by {
                    if e == edge.callee_entity_id {
                        assert(list_at(backward@, e) =~= callee_edges(edges@.take(idx + 1), e));
                    } else {
                        assert(callee_edges(edges@.take(idx + 1), e) =~= callee_edges(edges@.take(idx as int), e));
                    }
                }
            }
        }
        proof {
            assert(edges@.take(edges.len() as int) =~= edges@);
        }
        let mut chunk_of_entity: HashMap<i64, usize> = HashMap::new();
        for idx in 0..chunks.len()
            invariant
                forall|e: i64| #[trigger] chunk_of_entity@.contains_key(e) == primary_before(chunks@, e, idx as int),
                forall|e: i64| #[trigger] chunk_of_entity@.contains_key(e) ==> {
                    &&& has_primary(chunks@, chunk_of_entity@[e] as int, e)
                    &&& forall|k: int| 0 <= k < chunk_of_entity@[e] ==> !has_primary(chunks@, k, e)
                },
        {
            if chunks[idx].entity_ids.len() > 0 {
                let p = chunks[idx].entity_ids[0];
                if !chunk_of_entity.contains_key(&p) {
                    chunk_of_entity.insert(p, idx);
                }
                proof {
                    assert(has_primary(chunks@, idx as int, p));
                    assert forall|e: i64| #[trigger] chunk_of_entity@.contains_key(e) == primary_before(chunks@, e, idx + 1) by {
                        if primary_before(chunks@, e, idx + 1) && e != p {
                            let k = choose|k: int| 0 <= k < idx + 1 && #[trigger] has_primary(chunks@, k, e);
                            assert(k < idx);
                        }
                    }
                }
            } else {
                proof {
                    assert forall|e: i64| #[trigger] chunk_of_entity@.contains_key(e) == primary_before(chunks@, e, idx + 1) by {
                        if primary_before(chunks@, e, idx + 1) {
                            let k = choose|k: int| 0 <= k < idx + 1 && #[trigger] has_primary(chunks@, k, e);
                            assert(k < idx);
                        }
                    }
                }
            }
        }
        let n = chunks.len();
        for idx in 0..n
            invariant
                n == chunks.len(),
                forall|e: i64| #[trigger] chunk_of_entity@.contains_key(e)
                    == (primary_before(chunks@, e, n as int) || secondary_before(chunks@, e, idx as int)),
                forall|e: i64| #[trigger] chunk_of_entity@.contains_key(e) && primary_before(chunks@, e, n as int) ==> {
                    &&& has_primary(chunks@, chunk_of_entity@[e] as int, e)
                    &&& forall|k: int| 0 <= k < chunk_of_entity@[e] ==> !has_primary(chunks@, k, e)
                },
                forall|e: i64| #[trigger] chunk_of_entity@.contains_key(e) && !primary_before(chunks@, e, n as int) ==> {
                    &&& chunk_of_entity@[e] < idx
                    &&& chunks@[chunk_of_entity@[e] as int].entity_ids@.contains(e)
                    &&& forall|k: int| 0 <= k < chunk_of_entity@[e] ==> !(#[trigger] chunks@[k].entity_ids@.contains(e))
                },
        {
            let ids = &chunks[idx].entity_ids;
            let ghost before = chunk_of_entity@;
            let mut j: usize = 1;
            while j < ids.len()
                invariant
                    n == chunks.len(),
                    idx < n,
                    ids@ == chunks@[idx as int].entity_ids@,
                    1 <= j,
                    forall|e: i64| #[trigger] chunk_of_entity@.contains_key(e) == (before.contains_key(e)
                        || exists|t: int| 1 <= t < j && t < ids.len() && #[trigger] ids@[t] == e),
                    forall|e: i64| #[trigger] before.contains_key(e) ==> chunk_of_entity@[e] == before[e],
                    forall|e: i64| #[trigger] chunk_of_entity@.contains_key(e) && !before.contains_key(e) ==> chunk_of_entity@[e] == idx,
                decreases ids.len() - j,
            {
                let e = ids[j];
                if !chunk_of_entity.contains_key(&e) {
                    chunk_of_entity.insert(e, idx);
                }
                proof {
                    assert forall|x: i64| #[trigger] chunk_of_entity@.contains_key(x) == (before.contains_key(x)
                        || exists|t: int| 1 <= t < j + 1 && t < ids.len() && #[trigger] ids@[t] == x) by {
                        if x == e {
                            assert(ids@[j as int] == x);
                        }
                        if exists|t: int| 1 <= t < j + 1 && t < ids.len() && #[trigger] ids@[t] == x {
                            let t = choose|t: int| 1 <= t < j + 1 && t < ids.len() && #[trigger] ids@[t] == x;
                            if t < j {
                            }
                        }
                    }
                }
                j = j + 1;
            }
            proof {
                assert forall|e: i64| #[trigger] chunk_of_entity@.contains_key(e)
                    == (primary_before(chunks@, e, n as int) || secondary_before(chunks@, e, idx + 1)) by {
                    if secondary_before(chunks@, e, idx + 1) && !secondary_before(chunks@, e, idx as int) {
                        let (k, t) = choose|k: int, t: int| 0 <= k < idx + 1 && 1 <= t < chunks@[k].entity_ids@.len() && #[trigger] chunks@[k].entity_ids@[t] == e;
                        if k < idx {
                            assert(secondary_before(chunks@, e, idx as int));
                        }
                        assert(ids@[t] == e);
                    }
                    if exists|t: int| 1 <= t < j && t < ids.len() && #[trigger] ids@[t] == e {
                        let t = choose|t: int| 1 <= t < j && t < ids.len() && #[trigger] ids@[t] == e;
                        assert(chunks@[idx as int].entity_ids@[t] == e);
                    }
                }
                assert forall|e: i64| #[trigger] chunk_of_entity@.contains_key(e) && !primary_before(chunks@, e, n as int) implies {
                    &&& chunk_of_entity@[e] < idx + 1
                    &&& chunks@[chunk_of_entity@[e] as int].entity_ids@.contains(e)
                    &&& forall|k: int| 0 <= k < chunk_of_entity@[e] ==> !(#[trigger] chunks@[k].entity_ids@.contains(e))
                } by {
                    if !before.contains_key(e) {
                        let t = choose|t: int| 1 <= t < j && t < ids.len() && #[trigger] ids@[t] == e;
                        assert(chunks@[idx as int].entity_ids@[t] == e);
                        assert forall|k: int| 0 <= k < idx implies !(#[trigger] chunks@[k].entity_ids@.contains(e)) by {
                            if chunks@[k].entity_ids@.contains(e) {
                                let u = choose|u: int| 0 <= u < chunks@[k].entity_ids@.len() && chunks@[k].entity_ids@[u] == e;
                                if u == 0 {
                                    assert(has_primary(chunks@, k, e));
                                    assert(primary_before(chunks@, e, n as int));
                                } else {
                                    assert(secondary_before(chunks@, e, idx as int));
                                }
                            }
                        }
                    }
                }
            }
        }
        proof {
            assert forall|e: i64| #[trigger] chunk_of_entity@.contains_key(e) == mentioned(chunks@, e) by {
                if mentioned(chunks@, e) {
                    let k = choose|k: int| 0 <= k < chunks@.len() && #[trigger] chunks@[k].entity_ids@.contains(e);
                    let u = choose|u: int| 0 <= u < chunks@[k].entity_ids@.len() && chunks@[k].entity_ids@[u] == e;
                    if u == 0 {
                        assert(has_primary(chunks@, k, e));
                    } else {
                        assert(secondary_before(chunks@, e, n as int));
                    }
                }
                if primary_before(chunks@, e, n as int) {
                    let k = choose|k: int| 0 <= k < n && #[trigger] has_primary(chunks@, k, e);
                    assert(chunks@[k].entity_ids@[0] == e);
                    assert(chunks@[k].entity_ids@.contains(e));
                }
                if secondary_before(chunks@, e, n as int) {
                    let (k, t) = choose|k: int, t: int| 0 <= k < n && 1 <= t < chunks@[k].entity_ids@.len() && #[trigger] chunks@[k].entity_ids@[t] == e;
                    assert(chunks@[k].entity_ids@.contains(e));
                }
            }
        }
        CallGraph { forward, backward, chunk_of_entity }
    }
}

/// Callee ids of the edges listed by `idx`, in order.
pub open spec fn callees_at(edges: Seq<CallEdge>, idx: Seq<usize>) -> Seq<i64> {
    idx.map_values(|i: usize| edges[i as int].callee_entity_id)
}

/// Caller ids of the edges listed by `idx`, in order.
pub open spec fn callers_at(edges: Seq<CallEdge>, idx: Seq<usize>) -> Seq<i64> {
    idx.map_values(|i: usize| edges[i as int].caller_entity_id)
}

proof fn lemma_edge_indices_in_range(edges: Seq<CallEdge>, e: i64)
    ensures
        forall|k: int| 0 <= k < caller_edges(edges, e).len() ==> #[trigger] caller_edges(edges, e)[k] < edges.len(),
        forall|k: int| 0 <= k < callee_edges(edges, e).len() ==> #[trigger] callee_edges(edges, e)[k] < edges.len(),
    decreases edges.len(),
{
    if edges.len() > 0 {
        lemma_edge_indices_in_range(edges.drop_last(), e);
        let a = caller_edges(edges.drop_last(), e);
        let b = callee_edges(edges.drop_last(), e);
        assert forall|k: int| 0 <= k < caller_edges(edges, e).len() implies #[trigger] caller_edges(edges, e)[k] < edges.len() by {
            if k < a.len() {
                assert(caller_edges(edges, e)[k] == a[k]);
            }
        }
        assert forall|k: int| 0 <= k < callee_edges(edges, e).len() implies #[trigger] callee_edges(edges, e)[k] < edges.len() by {
            if k < b.len() {
                assert(callee_edges(edges, e)[k] == b[k]);
            }
        }
    }
}

impl CallGraph {
    /// Entities one call-graph hop from a chunk's primary entity: the
    /// callees of its outgoing edges and the callers of its incoming edges,
    /// each in edge order; none for a chunk without entities.
    pub fn expansion_targets(&self, edges: &[CallEdge], chunk: &ChunkData) -> (res: (Vec<i64>, Vec<i64>))
        requires
            self.edges_from(edges@),
        ensures
            chunk.entity_ids@.len() == 0 ==> res.0@.len() == 0 && res.1@.len() == 0,
            chunk.entity_ids@.len() > 0 ==> res.0@ == callees_at(edges@, caller_edges(edges@, chunk.entity_ids@[0])),
            chunk.entity_ids@.len() > 0 ==> res.1@ == callers_at(edges@, callee_edges(edges@, chunk.entity_ids@[0])),
    {
        let mut forward: Vec<i64> = Vec::new();
        let mut backward: Vec<i64> = Vec::new();
        if chunk.entity_ids.len() == 0 {
            return (forward, backward);
        }
        let primary = chunk.entity_ids[0];
        proof {
            lemma_edge_indices_in_range(edges@, primary);
            assert(self.forward_of(primary) == caller_edges(edges@, primary));
            assert(self.backward_of(primary) == callee_edges(edges@, primary));
        }
        match self.forward.get(&primary) {
            Some(list) => {
                for k in 0..list.len()
                    invariant
                        list@ == caller_edges(edges@, primary),
                        forall|m: int| 0 <= m < caller_edges(edges@, primary).len() ==> #[trigger] caller_edges(edges@, primary)[m] < edges@.len(),
                        forward@ == callees_at(edges@, list@.take(k as int)),
                {
                    let i = list[k];
                    forward.push(edges[i].callee_entity_id);
                    proof {
                        assert(list@.take(k + 1) =~= list@.take(k as int).push(i));
                        assert(forward@ =~= callees_at(edges@, list@.take(k + 1)));
                    }
                }
                proof {
                    assert(list@.take(list.len() as int) =~= list@);
                }
            },
            None => {
                proof {
                    assert(callees_at(edges@, caller_edges(edges@, primary)) =~= forward@);
                }
            },
        }
        match self.backward.get(&primary) {
            Some(list) => {
                for k in 0..list.len()
                    invariant
                        list@ == callee_edges(edges@, primary),
                        forall|m: int| 0 <= m < callee_edges(edges@, primary).len() ==> #[trigger] callee_edges(edges@, primary)[m] < edges@.len(),
                        backward@ == callers_at(edges@, list@.take(k as int)),
                {
                    let i = list[k];
                    backward.push(edges[i].caller_entity_id);
                    proof {
                        assert(list@.take(k + 1) =~= list@.take(k as int).push(i));
                        assert(backward@ =~= callers_at(edges@, list@.take(k + 1)));
                    }
                }
                proof {
                    assert(list@.take(list.len() as int) =~= list@);
                }
            },
            None => {
                proof {
                    assert(callers_at(edges@, callee_edges(edges@, primary)) =~= backward@);
                }
            },
        }
        (forward, backward)
    }

    /// Chunk index of a neighbour entity, unless it has no chunk or its chunk
    /// is already among the query's top hits.
    pub fn neighbor_chunk(&self, chunks: &[ChunkData], neighbor_id: i64, top_chunk_ids: &[String]) -> (res: Option<usize>)
        requires
            self.chunks_from(chunks@),
        ensures
            match res {
                Some(i) => self.chunk_of(neighbor_id) == Some(i)
                    && !string_views(top_chunk_ids@).contains(chunks@[i as int].chunk_id@),
                None => self.chunk_of(neighbor_id) is None || string_views(top_chunk_ids@).contains(
                    chunks@[self.chunk_of(neighbor_id)->0 as int].chunk_id@,
                ),
            },
    {
        match self.chunk_of_entity.get(&neighbor_id) {
            None => None,
            Some(idx) => {
                let idx = *idx;
                proof {
                    assert(self.chunk_of(neighbor_id) == Some(idx));
                    assert(resolves_to(chunks@, neighbor_id, idx as int));
                }
                let id = &chunks[idx].chunk_id;
                let mut k: usize = 0;
                while k < top_chunk_ids.len()
                    invariant
                        k <= top_chunk_ids.len(),
                        self.chunk_of(neighbor_id) == Some(idx),
                        idx < chunks.len(),
                        *id == chunks@[idx as int].chunk_id,
                        forall|m: int| 0 <= m < k ==> top_chunk_ids@[m]@ != id@,
                    decreases top_chunk_ids.len() - k,
                {
                    if top_chunk_ids[k] == *id {
                        proof {
                            assert(string_views(top_chunk_ids@)[k as int] == id@);
                        }
                        return None;
                    }
                    k = k + 1;
                }
                proof {
                    if string_views(top_chunk_ids@).contains(id@) {
                        let m = choose|m: int| 0 <= m < top_chunk_ids@.len() && #[trigger] string_views(top_chunk_ids@)[m] == id@;
                        assert(top_chunk_ids@[m]@ == id@);
                    }
                }
                Some(idx)
            },
        }
    }
}

/// Source line window of a neighbour: from its start line (at least 1) to
/// its end line (at most the file's line count); none when that is empty.
pub fn source_window(start_line: usize, end_line: usize, line_count: usize) -> (res: Option<(usize, usize)>)
    ensures
        res == (if (if end_line < line_count { end_line } else { line_count }) < (if start_line > 1 { start_line } else { 1 }) {
            None
        } else {
            Some((if start_line > 1 { start_line } else { 1usize }, if end_line < line_count { end_line } else { line_count }))
        }),
{
    let start = if start_line > 1 { start_line } else { 1 };
    let end = if end_line < line_count { end_line } else { line_count };
    if end < start {
        None
    } else {
        Some((start, end))
    }
}

/// Assembler content plus the line window and path for one hit.
#[derive(Debug, Clone)]
pub struct HitContent {
    pub content: String,
    pub start_line: u32,
    pub end_line: u32,
    /// Path handed to the assembler.
    pub assembler_path: String,
}

/// Hit content in chunk mode: the chunk text, lines 1 to its line count.
pub fn hit_content_from_chunk(chunk: &ChunkData, chunk_text: &str) -> (res: Result<HitContent, String>)
    ensures
        match res {
            Ok(h) => lines_of(chunk_text@).len() as u32 != 0 && h.content@ == chunk_text@ && h.start_line == 1
                && h.end_line == lines_of(chunk_text@).len() as u32 && h.assembler_path@ == chunk.file_path@,
            Err(e) => lines_of(chunk_text@).len() as u32 == 0 && e@ == "chunk text is empty"@,
        },
{
    let line_count = count_lines(chunk_text) as u32;
    if line_count == 0 {
        return Err(String::from_str("chunk text is empty"));
    }
    Ok(HitContent {
        content: String::from_str(chunk_text),
        start_line: 1,
        end_line: line_count,
        assembler_path: String::from_str(chunk.file_path.as_str()),
    })
}

/// Message for a source file without lines.
pub open spec fn empty_source_message(file_path: Seq<char>) -> Seq<char> {
    "source file "@ + file_path + " is empty"@
}

/// Message for a chunk range outside its source file.
pub open spec fn range_outside_message(start: u32, end: u32, file_path: Seq<char>, line_count: u32) -> Seq<char> {
    "chunk range "@ + decimal_chars(start as nat) + "-"@ + decimal_chars(end as nat) + " outside "@ + file_path + " ("@
        + decimal_chars(line_count as nat) + " lines)"@
}

/// Hit content in source mode, given the source file's text and absolute
/// path: the chunk's line range must lie within the file.
pub fn hit_content_from_source(chunk: &ChunkData, content: String, abs_path: &str) -> (res: Result<HitContent, String>)
    ensures
        ({
            let line_count = lines_of(content@).len() as u32;
            let start = chunk.start_line as u32;
            let end = chunk.end_line as u32;
            match res {
                Ok(h) => line_count != 0 && !(start == 0 || end == 0 || start > end || end > line_count) && h.content@ == content@
                    && h.start_line == start && h.end_line == end && h.assembler_path@ == forward_slashes(abs_path@),
                Err(e) => if line_count == 0 {
                    e@ == empty_source_message(chunk.file_path@)
                } else {
                    (start == 0 || end == 0 || start > end || end > line_count) && e@ == range_outside_message(
                        start,
                        end,
                        chunk.file_path@,
                        line_count,
                    )
                },
            }
        }),
{
    let line_count = count_lines(content.as_str()) as u32;
    if line_count == 0 {
        let mut msg = String::from_str("source file ");
        push_str(&mut msg, chunk.file_path.as_str());
        push_str(&mut msg, " is empty");
        return Err(msg);
    }
    let start = chunk.start_line as u32;
    let end = chunk.end_line as u32;
    if start == 0 || end == 0 || start > end || end > line_count {
        let mut msg = String::from_str("chunk range ");
        push_usize(&mut msg, start as usize);
        push_str(&mut msg, "-");
        push_usize(&mut msg, end as usize);
        push_str(&mut msg, " outside ");
        push_str(&mut msg, chunk.file_path.as_str());
        push_str(&mut msg, " (");
        push_usize(&mut msg, line_count as usize);
        push_str(&mut msg, " lines)");
        return Err(msg);
    }
    Ok(HitContent { content, start_line: start, end_line: end, assembler_path: normalize_path(abs_path) })
}

/// Name shown for a chunk: its entity name, or its chunk id when the entity
/// name is empty.
pub open spec fn display_name_spec(chunk: ChunkData) -> Seq<char> {
    if chunk.entity_name@.len() == 0 {
        chunk.chunk_id@
    } else {
        chunk.entity_name@
    }
}

pub fn display_name(chunk: &ChunkData) -> (res: &str)
    ensures
        res@ == display_name_spec(*chunk),
{
    if chunk.entity_name.as_str().is_empty() {
        chunk.chunk_id.as_str()
    } else {
        chunk.entity_name.as_str()
    }
}

/// Characters kept in file names: ASCII letters and digits, `-` and `_`.
pub open spec fn is_file_name_char(c: char) -> bool {
    ('a' <= c <= 'z') || ('A' <= c <= 'Z') || ('0' <= c <= '9') || c == '-' || c == '_'
}

/// A query id with every other character replaced by `_`.
pub open spec fn sanitized(id: Seq<char>) -> Seq<char> {
    id.map_values(|c: char| if is_file_name_char(c) { c } else { '_' })
}

/// File-name-safe form of a query id.
pub fn sanitize_query_id(id: &str) -> (res: String)
    ensures
        res@ == sanitized(id@),
{
    let mut res = String::new();
    for c in it: id.chars()
        invariant
            it.seq() == id@,
            res@ == sanitized(it.seq().take(it.index())),
    {
        proof {
            assert(sanitized(it.seq().take(it.index() + 1)) =~= sanitized(it.seq().take(it.index())).push(
                if is_file_name_char(c) { c } else { '_' },
            ));
        }
        if ('a' <= c && c <= 'z') || ('A' <= c && c <= 'Z') || ('0' <= c && c <= '9') || c == '-' || c == '_' {
            push_char(&mut res, c);
        } else {
            push_char(&mut res, '_');
        }
    }
    proof {
        assert(id@.take(id@.len() as int) =~= id@);
    }
    res
}

/// Entity ids in decimal, separated by `, `.
pub open spec fn joined_ids(ids: Seq<i64>) -> Seq<char>
    decreases ids.len(),
{
    if ids.len() == 0 {
        Seq::empty()
    } else if ids.len() == 1 {
        signed_decimal_chars(ids[0] as int)
    } else {
        joined_ids(ids.drop_last()) + ", "@ + signed_decimal_chars(ids.last() as int)
    }
}

/// The entity ids of a chunk, comma separated.
pub fn entity_ids_list(chunk: &ChunkData) -> (res: String)
    ensures
        res@ == joined_ids(chunk.entity_ids@),
{
    let ids = &chunk.entity_ids;
    let mut res = String::new();
    for k in 0..ids.len()
        invariant
            ids@ == chunk.entity_ids@,
            res@ == joined_ids(ids@.take(k as int)),
    {
        proof {
            assert(ids@.take(k + 1).drop_last() =~= ids@.take(k as int));
        }
        if k > 0 {
            push_str(&mut res, ", ");
        }
        push_i64(&mut res, ids[k]);
        proof {
            if k == 0 {
                assert(res@ =~= joined_ids(ids@.take(1)));
            } else {
                assert(res@ =~= joined_ids(ids@.take(k + 1)));
            }
        }
    }
    proof {
        assert(ids@.take(ids.len() as int) =~= ids@);
    }
    res
}

/// Markdown header of one hit.
pub open spec fn hit_header_spec(rank: usize, chunk: ChunkData, score_text: Seq<char>) -> Seq<char> {
    "### "@ + decimal_chars(rank as nat + 1) + ". "@ + display_name_spec(chunk) + "  score="@ + score_text + "\n\n"@
        + "- file: `"@ + chunk.file_path@ + ":"@ + decimal_chars(chunk.start_line as nat) + "-"@ + decimal_chars(
        chunk.end_line as nat,
    ) + "`\n"@ + "- entity_ids: ["@ + joined_ids(chunk.entity_ids@) + "], segment_id: "@ + (if chunk.segment_id@.len() == 0 {
        "(none)"@
    } else {
        chunk.segment_id@
    }) + "\n"@ + "\n"@
}

/// Renders the markdown header of the hit at 0-based `rank`, with the score
/// already formatted.
pub fn render_hit_header(rank: usize, chunk: &ChunkData, score_text: &str) -> (res: String)
    requires
        rank < usize::MAX,
    ensures
        res@ == hit_header_spec(rank, *chunk, score_text@),
{
    let mut out = String::from_str("### ");
    push_usize(&mut out, rank + 1);
    push_str(&mut out, ". ");
    push_str(&mut out, display_name(chunk));
    push_str(&mut out, "  score=");
    push_str(&mut out, score_text);
    push_str(&mut out, "\n\n");
    push_str(&mut out, "- file: `");
    push_str(&mut out, chunk.file_path.as_str());
    push_str(&mut out, ":");
    push_usize(&mut out, chunk.start_line);
    push_str(&mut out, "-");
    push_usize(&mut out, chunk.end_line);
    push_str(&mut out, "`\n");
    push_str(&mut out, "- entity_ids: [");
    let ids = entity_ids_list(chunk);
    push_str(&mut out, ids.as_str());
    push_str(&mut out, "], segment_id: ");
    if chunk.segment_id.as_str().is_empty() {
        push_str(&mut out, "(none)");
    } else {
        push_str(&mut out, chunk.segment_id.as_str());
    }
    push_str(&mut out, "\n");
    push_char(&mut out, '\n');
    proof {
        reveal_strlit("\n");
        assert(out@ =~= hit_header_spec(rank, *chunk, score_text@));
    }
    out
}

/// Markdown header of one query's review file.
pub open spec fn query_header_spec(
    query_id: Seq<char>,
    query_text: Seq<char>,
    query_type: Seq<char>,
    mode_label: Seq<char>,
    content_label: Seq<char>,
) -> Seq<char> {
    "# Query: "@ + query_id + "\n\n- **Query**: "@ + query_text + "\n- **Type**: "@ + query_type + "\n- **Mode**: "@ + mode_label
        + "\n- **Content**: "@ + content_label + "\n\n## Results\n\n"@
}

pub fn render_query_header(
    query_id: &str,
    query_text: &str,
    query_type: &str,
    mode_label: &str,
    content_label: &str,
) -> (res: String)
    ensures
        res@ == query_header_spec(query_id@, query_text@, query_type@, mode_label@, content_label@),
{
    let mut out = String::from_str("# Query: ");
    push_str(&mut out, query_id);
    push_str(&mut out, "\n\n- **Query**: ");
    push_str(&mut out, query_text);
    push_str(&mut out, "\n- **Type**: ");
    push_str(&mut out, query_type);
    push_str(&mut out, "\n- **Mode**: ");
    push_str(&mut out, mode_label);
    push_str(&mut out, "\n- **Content**: ");
    push_str(&mut out, content_label);
    push_str(&mut out, "\n\n## Results\n\n");
    out
}

/// Label of the recall mode and cutoff, e.g. `emb_top5`.
pub fn mode_label(recall: RecallMode, top_k: usize) -> (res: String)
    ensures
        res@ == "emb"@ + "_top"@ + decimal_chars(top_k as nat),
{
    let mut out = String::from_str(recall.label());
    push_str(&mut out, "_top");
    push_usize(&mut out, top_k);
    out
}

/// `text` with every `|` escaped as `\|` for a markdown table cell.
pub open spec fn escape_pipes_spec(text: Seq<char>) -> Seq<char>
    decreases text.len(),
{
    if text.len() == 0 {
        Seq::empty()
    } else {
        escape_pipes_spec(text.drop_last()) + if text.last() == '|' {
            seq!['\\', '|']
        } else {
            seq![text.last()]
        }
    }
}

/// Escaping works character by character: a `|` becomes `\|` and any
/// other character stays; so the escape of a concatenation is the
/// concatenation of the escapes.
pub proof fn lemma_escape_pipes_law(a: Seq<char>, b: Seq<char>, c: char)
    ensures
        escape_pipes_spec(a + b) == escape_pipes_spec(a) + escape_pipes_spec(b),
        escape_pipes_spec(seq![c]) == if c == '|' { seq!['\\', '|'] } else { seq![c] },
    decreases b.len(),
{
    assert(seq![c].drop_last() =~= Seq::<char>::empty());
    assert(escape_pipes_spec(Seq::<char>::empty()) =~= Seq::<char>::empty());
    if b.len() == 0 {
        assert(a + b =~= a);
        assert(escape_pipes_spec(a) + escape_pipes_spec(b) =~= escape_pipes_spec(a));
    } else {
        lemma_escape_pipes_law(a, b.drop_last(), c);
        assert((a + b).drop_last() =~= a + b.drop_last());
        assert((a + b).last() == b.last());
        assert(escape_pipes_spec(a + b) =~= escape_pipes_spec(a) + escape_pipes_spec(b));
    }
}

pub fn escape_pipes(text: &str) -> (res: String)
    ensures
        res@ == escape_pipes_spec(text@),
{
    let mut res = String::new();
    for c in it: text.chars()
        invariant
            it.seq() == text@,
            res@ == escape_pipes_spec(it.seq().take(it.index())),
    {
        proof {
            assert(it.seq().take(it.index() + 1).drop_last() =~= it.seq().take(it.index()));
        }
        if c == '|' {
            push_char(&mut res, '\\');
            push_char(&mut res, '|');
        } else {
            push_char(&mut res, c);
        }
        proof {
            assert(res@ =~= escape_pipes_spec(it.seq().take(it.index() + 1)));
        }
    }
    proof {
        assert(text@.take(text@.len() as int) =~= text@);
    }
    res
}

/// Header of the review index table.
pub open spec fn index_header_spec(project: Seq<char>, mode_label: Seq<char>, content_label: Seq<char>, expansion: bool) -> Seq<char> {
    "# Assembly review: "@ + project + " ("@ + "full_pipeline"@ + ", "@ + mode_label + ", content="@ + content_label + ", expansion="@
        + (if expansion { "on"@ } else { "off"@ }) + ")\n\n| query_id | type | query | top-1 hit |\n|---|---|---|---|\n"@
}

pub fn render_index_header(project: &str, mode_label: &str, content_label: &str, expansion: bool) -> (res: String)
    ensures
        res@ == index_header_spec(project@, mode_label@, content_label@, expansion),
{
    let mut out = String::from_str("# Assembly review: ");
    push_str(&mut out, project);
    push_str(&mut out, " (");
    push_str(&mut out, BASELINE);
    push_str(&mut out, ", ");
    push_str(&mut out, mode_label);
    push_str(&mut out, ", content=");
    push_str(&mut out, content_label);
    push_str(&mut out, ", expansion=");
    push_str(&mut out, if expansion { "on" } else { "off" });
    push_str(&mut out, ")\n\n| query_id | type | query | top-1 hit |\n|---|---|---|---|\n");
    out
}

/// One row of the review index table.
pub open spec fn index_row_spec(query_id: Seq<char>, query_type: Seq<char>, query_text: Seq<char>, top1: Option<Seq<char>>) -> Seq<char> {
    "| "@ + query_id + " | "@ + query_type + " | "@ + escape_pipes_spec(query_text) + " | "@ + (match top1 {
        Some(t) => t,
        None => "(no hits)"@,
    }) + " |\n"@
}

pub fn render_index_row(query_id: &str, query_type: &str, query_text: &str, top1: Option<&str>) -> (res: String)
    ensures
        res@ == index_row_spec(query_id@, query_type@, query_text@, match top1 {
            Some(t) => Some(t@),
            None => None,
        }),
{
    let mut out = String::from_str("| ");
    push_str(&mut out, query_id);
    push_str(&mut out, " | ");
    push_str(&mut out, query_type);
    push_str(&mut out, " | ");
    let escaped = escape_pipes(query_text);
    push_str(&mut out, escaped.as_str());
    push_str(&mut out, " | ");
    match top1 {
        Some(t) => push_str(&mut out, t),
        None => push_str(&mut out, "(no hits)"),
    }
    push_str(&mut out, " |\n");
    out
}

/// What the assembler reports of one assembled hit.
#[derive(Debug, Clone, Copy)]
pub struct AssemblyMeta {
    pub expanded: bool,
    pub expanded_nodes: usize,
    pub forward_nodes: usize,
    pub backward_nodes: usize,
    pub file_count: usize,
    pub original_length: usize,
    pub assembled_length: usize,
    pub truncated: bool,
}

pub open spec fn bool_chars(b: bool) -> Seq<char> {
    if b { "true"@ } else { "false"@ }
}

fn push_bool(out: &mut String, b: bool)
    ensures
        final(out)@ == old(out)@ + bool_chars(b),
{
    if b {
        push_str(out, "true");
    } else {
        push_str(out, "false");
    }
}

/// The assembled-content block of a hit: the assembly metadata line, a
/// note when nothing was expanded, then the assembled content.
pub open spec fn assembled_block_spec(m: AssemblyMeta, content: Seq<char>) -> Seq<char> {
    "- assembly: expanded="@ + bool_chars(m.expanded)
        + ", expanded_nodes="@ + decimal_chars(m.expanded_nodes as nat)
        + " (fwd="@ + decimal_chars(m.forward_nodes as nat)
        + ", bwd="@ + decimal_chars(m.backward_nodes as nat)
        + "), files="@ + decimal_chars(m.file_count as nat)
        + ", original_length="@ + decimal_chars(m.original_length as nat)
        + ", assembled_length="@ + decimal_chars(m.assembled_length as nat)
        + ", truncated="@ + bool_chars(m.truncated) + "\n"@
        + (if m.expanded { Seq::empty() } else { "> not expanded \u{2014} content identical to raw.\n"@ })
        + "\n"@ + content + "\n\n"@
}

pub fn render_assembled_block(m: &AssemblyMeta, content: &str) -> (res: String)
    ensures
        res@ == assembled_block_spec(*m, content@),
{
    let mut out = String::new();
    push_str(&mut out, "- assembly: expanded=");
    push_bool(&mut out, m.expanded);
    push_str(&mut out, ", expanded_nodes=");
    push_usize(&mut out, m.expanded_nodes);
    push_str(&mut out, " (fwd=");
    push_usize(&mut out, m.forward_nodes);
    push_str(&mut out, ", bwd=");
    push_usize(&mut out, m.backward_nodes);
    push_str(&mut out, "), files=");
    push_usize(&mut out, m.file_count);
    push_str(&mut out, ", original_length=");
    push_usize(&mut out, m.original_length);
    push_str(&mut out, ", assembled_length=");
    push_usize(&mut out, m.assembled_length);
    push_str(&mut out, ", truncated=");
    push_bool(&mut out, m.truncated);
    push_str(&mut out, "\n");
    if !m.expanded {
        push_str(&mut out, "> not expanded \u{2014} content identical to raw.\n");
    }
    push_str(&mut out, "\n");
    push_str(&mut out, content);
    push_str(&mut out, "\n\n");
    proof {
        assert(out@ =~= assembled_block_spec(*m, content@));
    }
    out
}

/// The reason text when the assembler itself failed.
pub open spec fn assembly_failed_spec(error: Seq<char>) -> Seq<char> {
    "assembly failed ("@ + error + ")"@
}

pub fn assembly_failed_reason(error: &str) -> (res: String)
    ensures
        res@ == assembly_failed_spec(error@),
{
    let mut out = String::new();
    push_str(&mut out, "assembly failed (");
    push_str(&mut out, error);
    push_str(&mut out, ")");
    out
}

/// The block of a hit whose content could not be assembled: the reason as
/// a quoted note, then the raw content.
pub open spec fn fallback_block_spec(reason: Seq<char>, raw: Seq<char>) -> Seq<char> {
    "> "@ + reason + "; content identical to raw."@ + "\n\n"@ + raw + "\n\n"@
}

pub fn render_fallback_block(reason: &str, raw: &str) -> (res: String)
    ensures
        res@ == fallback_block_spec(reason@, raw@),
{
    let mut out = String::new();
    push_str(&mut out, "> ");
    push_str(&mut out, reason);
    push_str(&mut out, "; content identical to raw.");
    push_str(&mut out, "\n\n");
    push_str(&mut out, raw);
    push_str(&mut out, "\n\n");
    out
}

} // verus!
