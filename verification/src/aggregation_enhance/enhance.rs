//! Offline relation signal for the aggregation-enhance benchmark: a
//! file-cohort entity graph built from chunk metadata, and the bounded
//! traversal that finds entities related to the top-ranked hits.
//!
//! The graph links entities that share a file (undirected). Seeds are the
//! entities of the top-ranked hits; the breadth-first traversal reports
//! every entity it reaches (other than a seed) with its shortest hop
//! distance from the seeds, up to `max_hops`.

use vstd::prelude::*;
use std::collections::HashMap;
use std::collections::HashSet;
use crate::bench_data::ChunkData;

verus! {

broadcast use vstd::std_specs::hash::group_hash_axioms;

/// (entity, file) membership pairs of a chunk list: every entity id of every
/// chunk, paired with the chunk's file path, in chunk order.
pub open spec fn chunk_pairs(chunks: Seq<ChunkData>) -> Seq<(i64, Seq<char>)>
    decreases chunks.len(),
{
    if chunks.len() == 0 {
        Seq::empty()
    } else {
        chunk_pairs(chunks.drop_last()) + chunks.last().entity_ids@.map_values(
            |e: i64| (e, chunks.last().file_path@),
        )
    }
}

/// File of each entity: the file of the first pair that mentions it.
pub open spec fn first_files(pairs: Seq<(i64, Seq<char>)>) -> Map<i64, Seq<char>>
    decreases pairs.len(),
{
    if pairs.len() == 0 {
        Map::empty()
    } else {
        let m = first_files(pairs.drop_last());
        let (e, f) = pairs.last();
        if m.contains_key(e) {
            m
        } else {
            m.insert(e, f)
        }
    }
}

/// Entities that occur in a file.
pub open spec fn file_members(pairs: Seq<(i64, Seq<char>)>, f: Seq<char>) -> Set<i64> {
    Set::new(|e: i64| pairs.contains((e, f)))
}

/// Files that hold at least one entity.
pub open spec fn entity_files(pairs: Seq<(i64, Seq<char>)>) -> Set<Seq<char>> {
    Set::new(|f: Seq<char>| exists|e: i64| pairs.contains((e, f)))
}

/// Entity ids carried by the chunks.
pub open spec fn chunk_entities(cs: Seq<ChunkData>) -> Set<i64> {
    Set::new(|e: i64| exists|i: int| 0 <= i < cs.len() && #[trigger] cs[i].entity_ids@.contains(e))
}

/// File paths of the chunks that carry at least one entity.
pub open spec fn chunk_files(cs: Seq<ChunkData>) -> Set<Seq<char>> {
    Set::new(|f: Seq<char>| exists|i: int| 0 <= i < cs.len() && #[trigger] cs[i].file_path@ == f && cs[i].entity_ids@.len() > 0)
}

/// `e` and `x` are carried by chunks of the same file path.
pub open spec fn share_file(cs: Seq<ChunkData>, e: i64, x: i64) -> bool {
    exists|i: int, j: int|
        0 <= i < cs.len() && 0 <= j < cs.len() && cs[i].file_path@ == cs[j].file_path@
            && #[trigger] cs[i].entity_ids@.contains(e) && #[trigger] cs[j].entity_ids@.contains(x)
}

proof fn lemma_pairs_contain(cs: Seq<ChunkData>, e: i64, f: Seq<char>)
    ensures
        chunk_pairs(cs).contains((e, f)) <==> exists|i: int|
            0 <= i < cs.len() && #[trigger] cs[i].entity_ids@.contains(e) && cs[i].file_path@ == f,
    decreases cs.len(),
{
    if cs.len() > 0 {
        let n = cs.len() - 1;
        let prev = chunk_pairs(cs.drop_last());
        let tail = cs.last().entity_ids@.map_values(|x: i64| (x, cs.last().file_path@));
        lemma_pairs_contain(cs.drop_last(), e, f);
        assert(chunk_pairs(cs) == prev + tail);
        if chunk_pairs(cs).contains((e, f)) {
            let k = choose|k: int| 0 <= k < chunk_pairs(cs).len() && chunk_pairs(cs)[k] == (e, f);
            if k < prev.len() {
                assert(prev[k] == (e, f));
                let i = choose|i: int| 0 <= i < cs.drop_last().len() && #[trigger] cs.drop_last()[i].entity_ids@.contains(e) && cs.drop_last()[i].file_path@ == f;
                assert(cs.drop_last()[i] == cs[i]);
            } else {
                assert(tail[k - prev.len()] == (e, f));
                assert(cs.last().entity_ids@[k - prev.len()] == e);
                assert(cs[n] == cs.last());
                assert(cs[n].entity_ids@.contains(e));
            }
        }
        if exists|i: int| 0 <= i < cs.len() && #[trigger] cs[i].entity_ids@.contains(e) && cs[i].file_path@ == f {
            let i = choose|i: int| 0 <= i < cs.len() && #[trigger] cs[i].entity_ids@.contains(e) && cs[i].file_path@ == f;
            if i < n {
                assert(cs.drop_last()[i] == cs[i]);
                assert(cs.drop_last()[i].entity_ids@.contains(e));
                assert(prev.contains((e, f)));
                let k = choose|k: int| 0 <= k < prev.len() && prev[k] == (e, f);
                assert(chunk_pairs(cs)[k] == (e, f));
            } else {
                assert(cs[i] == cs.last());
                let j = choose|j: int| 0 <= j < cs.last().entity_ids@.len() && cs.last().entity_ids@[j] == e;
                assert(tail[j] == (e, f));
                assert(chunk_pairs(cs)[prev.len() + j] == (e, f));
            }
        }
    }
}

proof fn lemma_first_files_dom(pairs: Seq<(i64, Seq<char>)>, e: i64)
    ensures
        first_files(pairs).contains_key(e) <==> exists|f: Seq<char>| #[trigger] pairs.contains((e, f)),
    decreases pairs.len(),
{
    if pairs.len() > 0 {
        lemma_first_files_dom(pairs.drop_last(), e);
        let (e2, f2) = pairs.last();
        assert(pairs[pairs.len() - 1] == pairs.last());
        if exists|f: Seq<char>| #[trigger] pairs.drop_last().contains((e, f)) {
            let f = choose|f: Seq<char>| #[trigger] pairs.drop_last().contains((e, f));
            let k = choose|k: int| 0 <= k < pairs.drop_last().len() && pairs.drop_last()[k] == (e, f);
            assert(pairs[k] == (e, f));
            assert(pairs.contains((e, f)));
        }
        if exists|f: Seq<char>| #[trigger] pairs.contains((e, f)) {
            let f = choose|f: Seq<char>| #[trigger] pairs.contains((e, f));
            let k = choose|k: int| 0 <= k < pairs.len() && pairs[k] == (e, f);
            if k < pairs.len() - 1 {
                assert(pairs.drop_last()[k] == (e, f));
                assert(pairs.drop_last().contains((e, f)));
            }
        }
        if e2 == e {
            assert(pairs.contains((e, f2)));
        }
    }
}

/// Law of the built graph: its entities are exactly the entity ids of the
/// chunks, its files exactly the file paths of chunks that carry an
/// entity, and two distinct entities are neighbours exactly when chunks of
/// one file path carry them (so the relation is symmetric).
pub proof fn lemma_cohort_graph_law(cs: Seq<ChunkData>, g: FileCohortGraph)
    requires
        g.entity_file() == first_files(chunk_pairs(cs)),
        g.file_set() == entity_files(chunk_pairs(cs)),
        forall|f: Seq<char>| #[trigger] g.cohort(f) == file_members(chunk_pairs(cs), f),
    ensures
        g.universe() == chunk_entities(cs),
        g.file_set() == chunk_files(cs),
        forall|e: i64, x: i64| #[trigger] g.neighbor_set(e).contains(x) <==> (e != x && share_file(cs, e, x)),
{
    let pairs = chunk_pairs(cs);
    assert forall|e: i64| g.universe().contains(e) <==> chunk_entities(cs).contains(e) by {
        lemma_first_files_dom(pairs, e);
        if g.universe().contains(e) {
            let f = choose|f: Seq<char>| #[trigger] pairs.contains((e, f));
            lemma_pairs_contain(cs, e, f);
            let i = choose|i: int| 0 <= i < cs.len() && #[trigger] cs[i].entity_ids@.contains(e) && cs[i].file_path@ == f;
        }
        if chunk_entities(cs).contains(e) {
            let i = choose|i: int| 0 <= i < cs.len() && #[trigger] cs[i].entity_ids@.contains(e);
            lemma_pairs_contain(cs, e, cs[i].file_path@);
        }
    }
    assert(g.universe() =~= chunk_entities(cs));
    assert forall|f: Seq<char>| g.file_set().contains(f) <==> chunk_files(cs).contains(f) by {
        if g.file_set().contains(f) {
            let e = choose|e: i64| pairs.contains((e, f));
            lemma_pairs_contain(cs, e, f);
            let i = choose|i: int| 0 <= i < cs.len() && #[trigger] cs[i].entity_ids@.contains(e) && cs[i].file_path@ == f;
            assert(cs[i].entity_ids@.len() > 0);
        }
        if chunk_files(cs).contains(f) {
            let i = choose|i: int| 0 <= i < cs.len() && #[trigger] cs[i].file_path@ == f && cs[i].entity_ids@.len() > 0;
            let e = cs[i].entity_ids@[0];
            assert(cs[i].entity_ids@.contains(e));
            lemma_pairs_contain(cs, e, f);
            assert(entity_files(pairs).contains(f));
        }
    }
    assert(g.file_set() =~= chunk_files(cs));
    assert forall|e: i64, x: i64| #[trigger] g.neighbor_set(e).contains(x) <==> (e != x && share_file(cs, e, x)) by {
        if g.neighbor_set(e).contains(x) {
            let f = choose|f: Seq<char>| #[trigger] g.cohort(f).contains(e) && g.cohort(f).contains(x);
            assert(file_members(pairs, f).contains(e));
            assert(file_members(pairs, f).contains(x));
            lemma_pairs_contain(cs, e, f);
            lemma_pairs_contain(cs, x, f);
            let i = choose|i: int| 0 <= i < cs.len() && #[trigger] cs[i].entity_ids@.contains(e) && cs[i].file_path@ == f;
            let j = choose|j: int| 0 <= j < cs.len() && #[trigger] cs[j].entity_ids@.contains(x) && cs[j].file_path@ == f;
            assert(share_file(cs, e, x));
        }
        if e != x && share_file(cs, e, x) {
            let (i, j) = choose|i: int, j: int|
                0 <= i < cs.len() && 0 <= j < cs.len() && cs[i].file_path@ == cs[j].file_path@
                    && #[trigger] cs[i].entity_ids@.contains(e) && #[trigger] cs[j].entity_ids@.contains(x);
            let f = cs[i].file_path@;
            lemma_pairs_contain(cs, e, f);
            lemma_pairs_contain(cs, x, f);
            assert(file_members(pairs, f).contains(e));
            assert(file_members(pairs, f).contains(x));
            assert(g.cohort(f).contains(e) && g.cohort(f).contains(x));
        }
    }
}

/// Strictly ascending sequence.
pub open spec fn strictly_sorted(s: Seq<i64>) -> bool {
    forall|i: int, j: int| 0 <= i < j < s.len() ==> s[i] < s[j]
}

/// Undirected file-cohort entity graph.
pub struct FileCohortGraph {
    /// entity -> index (into `files`) of the first file it occurred in
    entity_to_file: HashMap<i64, usize>,
    /// distinct file paths holding entities, in first-seen order
    files: Vec<String>,
    /// per file (aligned with `files`): its entities, strictly ascending
    file_to_entities: Vec<Vec<i64>>,
}

impl FileCohortGraph {
    /// Internal consistency of the index structures.
    pub closed spec fn wf(&self) -> bool {
        &&& self.files.len() == self.file_to_entities.len()
        &&& forall|i: int, j: int|
            0 <= i < j < self.files.len() ==> #[trigger] self.files@[i]@ != #[trigger] self.files@[j]@
        &&& forall|k: int| 0 <= k < self.file_to_entities.len() ==> strictly_sorted(#[trigger] self.file_to_entities@[k]@)
        &&& forall|e: i64| #[trigger] self.entity_to_file@.contains_key(e) ==> {
            &&& self.entity_to_file@[e] < self.files.len()
            &&& self.file_to_entities@[self.entity_to_file@[e] as int]@.contains(e)
        }
        &&& forall|k: int, i: int|
            0 <= k < self.file_to_entities.len() && 0 <= i < self.file_to_entities@[k].len()
                ==> self.entity_to_file@.contains_key(#[trigger] self.file_to_entities@[k]@[i])
    }

    /// File of each entity (the first file it occurred in).
    pub closed spec fn entity_file(&self) -> Map<i64, Seq<char>> {
        Map::new(
            |e: i64| self.entity_to_file@.contains_key(e),
            |e: i64| self.files@[self.entity_to_file@[e] as int]@,
        )
    }

    /// Files that hold entities.
    pub closed spec fn file_set(&self) -> Set<Seq<char>> {
        Set::new(|f: Seq<char>| exists|k: int| 0 <= k < self.files.len() && self.files@[k]@ == f)
    }

    /// Entities of a file (empty for a file without entities).
    pub closed spec fn cohort(&self, f: Seq<char>) -> Set<i64> {
        Set::new(
            |e: i64|
                exists|k: int|
                    0 <= k < self.files.len() && self.files@[k]@ == f
                        && self.file_to_entities@[k]@.contains(e),
        )
    }

    /// Entities that share a file with `e` (excluding `e`).
    pub open spec fn neighbor_set(&self, e: i64) -> Set<i64> {
        Set::new(|x: i64| x != e && exists|f: Seq<char>| #[trigger] self.cohort(f).contains(e) && self.cohort(f).contains(x))
    }

    /// Index of a file path, adding it (with no entities) when absent.
    fn file_index(&mut self, path: &String) -> (idx: usize)
        requires
            old(self).wf(),
        ensures
            final(self).wf(),
            idx < final(self).files.len(),
            final(self).files@[idx as int]@ == path@,
            final(self).entity_to_file@ == old(self).entity_to_file@,
            final(self).entity_file() == old(self).entity_file(),
            final(self).file_set() == old(self).file_set().insert(path@),
            forall|f: Seq<char>| #[trigger] final(self).cohort(f) == old(self).cohort(f),
            forall|k: int| 0 <= k < old(self).files.len() ==> #[trigger] final(self).file_to_entities@[k] == old(self).file_to_entities@[k],
            forall|k: int| 0 <= k < old(self).files.len() ==> #[trigger] final(self).files@[k] == old(self).files@[k],
            old(self).files.len() <= final(self).files.len(),
            idx >= old(self).files.len() ==> final(self).file_to_entities@[idx as int]@.len() == 0,
    {
        let n = self.files.len();
        for k in 0..n
            invariant
                n == self.files.len(),
                *self == *old(self),
                self.wf(),
                forall|j: int| 0 <= j < k ==> #[trigger] self.files@[j]@ != path@,
        {
            if self.files[k] == *path {
                proof {
                    assert(self.file_set() =~= old(self).file_set().insert(path@));
                }
                return k;
            }
        }
        let ghost prev = *self;
        self.files.push(path.clone());
        self.file_to_entities.push(Vec::new());
        proof {
            assert forall|e: i64| #[trigger] self.entity_to_file@.contains_key(e) implies {
                &&& self.entity_to_file@[e] < self.files.len()
                &&& self.file_to_entities@[self.entity_to_file@[e] as int]@.contains(e)
            } by {
                assert(self.file_to_entities@[prev.entity_to_file@[e] as int] == prev.file_to_entities@[prev.entity_to_file@[e] as int]);
            }
            assert forall|k: int, i: int|
                0 <= k < self.file_to_entities.len() && 0 <= i < self.file_to_entities@[k].len()
                implies self.entity_to_file@.contains_key(#[trigger] self.file_to_entities@[k]@[i]) by {
                assert(k < prev.file_to_entities.len());
                assert(self.file_to_entities@[k] == prev.file_to_entities@[k]);
            }
            assert(self.entity_file() =~= prev.entity_file());
            assert(self.file_set() =~= prev.file_set().insert(path@)) by {
                assert(self.files@[n as int]@ == path@);
                assert forall|f: Seq<char>| prev.file_set().contains(f) implies self.file_set().contains(f) by {
                    let k = choose|k: int| 0 <= k < prev.files.len() && prev.files@[k]@ == f;
                    assert(self.files@[k] == prev.files@[k]);
                }
                assert forall|f: Seq<char>| #[trigger] self.file_set().contains(f) implies prev.file_set().insert(path@).contains(f) by {
                    let k = choose|k: int| 0 <= k < self.files.len() && self.files@[k]@ == f;
                    if k < n {
                        assert(prev.files@[k]@ == f);
                    }
                }
            }
            assert forall|f: Seq<char>| #[trigger] self.cohort(f) == prev.cohort(f) by {
                assert forall|e: i64| self.cohort(f).contains(e) implies prev.cohort(f).contains(e) by {
                    let k = choose|k: int|
                        0 <= k < self.files.len() && self.files@[k]@ == f
                            && self.file_to_entities@[k]@.contains(e);
                    if k == n {
                        assert(self.file_to_entities@[k]@.len() == 0);
                    } else {
                        assert(self.file_to_entities@[k] == prev.file_to_entities@[k]);
                    }
                }
                assert forall|e: i64| prev.cohort(f).contains(e) implies self.cohort(f).contains(e) by {
                    let k = choose|k: int|
                        0 <= k < prev.files.len() && prev.files@[k]@ == f
                            && prev.file_to_entities@[k]@.contains(e);
                    assert(self.file_to_entities@[k] == prev.file_to_entities@[k]);
                    assert(self.files@[k] == prev.files@[k]);
                }
                assert(self.cohort(f) =~= prev.cohort(f));
            }
        }
        n
    }

    /// Records that entity `e` occurs in file `path`.
    fn add_pair(&mut self, e: i64, path: &String)
        requires
            old(self).wf(),
        ensures
            final(self).wf(),
            final(self).entity_file() == (if old(self).entity_file().contains_key(e) {
                old(self).entity_file()
            } else {
                old(self).entity_file().insert(e, path@)
            }),
            final(self).file_set() == old(self).file_set().insert(path@),
            forall|f: Seq<char>| #[trigger] final(self).cohort(f) == (if f == path@ {
                old(self).cohort(f).insert(e)
            } else {
                old(self).cohort(f)
            }),
    {
        let ghost start = *self;
        let idx = self.file_index(path);
        let ghost mid = *self;
        let new_list = with_inserted(&self.file_to_entities[idx], e);
        self.file_to_entities.set(idx, new_list);
        if !self.entity_to_file.contains_key(&e) {
            self.entity_to_file.insert(e, idx);
        }
        proof {
            let after = *self;
            assert forall|e2: i64| #[trigger] after.entity_to_file@.contains_key(e2) implies {
                &&& after.entity_to_file@[e2] < after.files.len()
                &&& after.file_to_entities@[after.entity_to_file@[e2] as int]@.contains(e2)
            } by {
                if e2 != e {
                    let k = mid.entity_to_file@[e2] as int;
                    if k == idx as int {
                        assert(mid.file_to_entities@[k]@.contains(e2));
                        assert(after.file_to_entities@[k]@.to_set().contains(e2));
                    } else {
                        assert(after.file_to_entities@[k] == mid.file_to_entities@[k]);
                    }
                } else {
                    let k = after.entity_to_file@[e2] as int;
                    if k == idx as int {
                        assert(after.file_to_entities@[k]@.to_set().contains(e2));
                    } else {
                        assert(after.file_to_entities@[k] == mid.file_to_entities@[k]);
                    }
                }
            }
            assert forall|k: int, i: int|
                0 <= k < after.file_to_entities.len() && 0 <= i < after.file_to_entities@[k].len()
                implies after.entity_to_file@.contains_key(#[trigger] after.file_to_entities@[k]@[i]) by {
                let x = after.file_to_entities@[k]@[i];
                if k == idx as int {
                    assert(after.file_to_entities@[k]@.to_set().contains(x));
                    if x != e {
                        assert(mid.file_to_entities@[k]@.to_set().contains(x));
                        let j = choose|j: int| 0 <= j < mid.file_to_entities@[k].len() && mid.file_to_entities@[k]@[j] == x;
                        assert(mid.entity_to_file@.contains_key(mid.file_to_entities@[k]@[j]));
                    }
                } else {
                    assert(after.file_to_entities@[k] == mid.file_to_entities@[k]);
                    assert(mid.entity_to_file@.contains_key(mid.file_to_entities@[k]@[i]));
                }
            }
            assert forall|k: int| 0 <= k < after.file_to_entities.len() implies strictly_sorted(#[trigger] after.file_to_entities@[k]@) by {
                if k != idx as int {
                    assert(after.file_to_entities@[k] == mid.file_to_entities@[k]);
                }
            }
            if start.entity_file().contains_key(e) {
                assert(after.entity_file() =~= start.entity_file());
            } else {
                assert(after.entity_file() =~= start.entity_file().insert(e, path@));
            }
            assert forall|f: Seq<char>| #[trigger] after.cohort(f) == (if f == path@ {
                start.cohort(f).insert(e)
            } else {
                start.cohort(f)
            }) by {
                let target = if f == path@ { mid.cohort(f).insert(e) } else { mid.cohort(f) };
                assert forall|x: i64| after.cohort(f).contains(x) implies target.contains(x) by {
                    let k = choose|k: int|
                        0 <= k < after.files.len() && after.files@[k]@ == f
                            && after.file_to_entities@[k]@.contains(x);
                    if k == idx as int {
                        assert(after.file_to_entities@[k]@.to_set().contains(x));
                        if x != e {
                            assert(mid.file_to_entities@[k]@.to_set().contains(x));
                        }
                    } else {
                        assert(after.file_to_entities@[k] == mid.file_to_entities@[k]);
                    }
                }
                assert forall|x: i64| target.contains(x) implies after.cohort(f).contains(x) by {
                    if f == path@ && x == e {
                        assert(after.file_to_entities@[idx as int]@.to_set().contains(x));
                    } else {
                        let k = choose|k: int|
                            0 <= k < mid.files.len() && mid.files@[k]@ == f
                                && mid.file_to_entities@[k]@.contains(x);
                        if k == idx as int {
                            assert(mid.file_to_entities@[k]@.to_set().contains(x));
                            assert(after.file_to_entities@[k]@.to_set().contains(x));
                        } else {
                            assert(after.file_to_entities@[k] == mid.file_to_entities@[k]);
                        }
                    }
                }
                assert(after.cohort(f) =~= target);
            }
            assert(after.file_set() =~= mid.file_set());
        }
    }

    /// Builds the graph from the union of both recall paths' chunks.
    pub fn build(chunks: &[&ChunkData]) -> (g: Self)
        ensures
            g.wf(),
            g.entity_file() == first_files(chunk_pairs(chunks@.map_values(|c: &ChunkData| *c))),
            g.file_set() == entity_files(chunk_pairs(chunks@.map_values(|c: &ChunkData| *c))),
            forall|f: Seq<char>|
                #[trigger] g.cohort(f) == file_members(chunk_pairs(chunks@.map_values(|c: &ChunkData| *c)), f),
            g.universe() == chunk_entities(chunks@.map_values(|c: &ChunkData| *c)),
            g.file_set() == chunk_files(chunks@.map_values(|c: &ChunkData| *c)),
            forall|e: i64, x: i64| #[trigger] g.neighbor_set(e).contains(x)
                <==> (e != x && share_file(chunks@.map_values(|c: &ChunkData| *c), e, x)),
    {
        let ghost cs = chunks@.map_values(|c: &ChunkData| *c);
        let mut g = FileCohortGraph {
            entity_to_file: HashMap::new(),
            files: Vec::new(),
            file_to_entities: Vec::new(),
        };
        proof {
            assert(chunk_pairs(cs.take(0)) =~= Seq::empty());
            assert(g.entity_file() =~= Map::empty());
            assert(g.file_set() =~= entity_files(Seq::empty()));
            assert forall|f: Seq<char>| #[trigger] g.cohort(f) == file_members(Seq::empty(), f) by {
                assert(g.cohort(f) =~= file_members(Seq::empty(), f));
            }
        }
        for ci in 0..chunks.len()
            invariant
                cs == chunks@.map_values(|c: &ChunkData| *c),
                g.wf(),
                g.entity_file() == first_files(chunk_pairs(cs.take(ci as int))),
                g.file_set() == entity_files(chunk_pairs(cs.take(ci as int))),
                forall|f: Seq<char>| #[trigger] g.cohort(f) == file_members(chunk_pairs(cs.take(ci as int)), f),
        {
            let chunk: &ChunkData = chunks[ci];
            let ghost base = chunk_pairs(cs.take(ci as int));
            proof {
                assert(cs.take(ci + 1).drop_last() =~= cs.take(ci as int));
                assert(cs.take(ci + 1).last() == *chunk);
            }
            for k in 0..chunk.entity_ids.len()
                invariant
                    g.wf(),
                    g.entity_file() == first_files(base + chunk.entity_ids@.take(k as int).map_values(|e: i64| (e, chunk.file_path@))),
                    g.file_set() == entity_files(base + chunk.entity_ids@.take(k as int).map_values(|e: i64| (e, chunk.file_path@))),
                    forall|f: Seq<char>| #[trigger] g.cohort(f) == file_members(base + chunk.entity_ids@.take(k as int).map_values(|e: i64| (e, chunk.file_path@)), f),
            {
                let e = chunk.entity_ids[k];
                let ghost before = base + chunk.entity_ids@.take(k as int).map_values(|x: i64| (x, chunk.file_path@));
                let ghost after = base + chunk.entity_ids@.take(k + 1).map_values(|x: i64| (x, chunk.file_path@));
                proof {
                    assert(after =~= before.push((e, chunk.file_path@)));
                    assert(after.drop_last() =~= before);
                }
                let ghost g0 = g;
                g.add_pair(e, &chunk.file_path);
                proof {
                    assert(entity_files(after) =~= entity_files(before).insert(chunk.file_path@)) by {
                        assert(after[after.len() - 1] == (e, chunk.file_path@));
                        assert(after.contains((e, chunk.file_path@)));
                        assert forall|f: Seq<char>| entity_files(after).contains(f) <==> entity_files(before).insert(chunk.file_path@).contains(f) by {
                            if entity_files(after).contains(f) {
                                let x = choose|x: i64| after.contains((x, f));
                                let j = choose|j: int| 0 <= j < after.len() && after[j] == (x, f);
                                if j < before.len() {
                                    assert(before[j] == (x, f));
                                    assert(before.contains((x, f)));
                                }
                            }
                            if entity_files(before).contains(f) {
                                let x = choose|x: i64| before.contains((x, f));
                                let j = choose|j: int| 0 <= j < before.len() && before[j] == (x, f);
                                assert(after[j] == (x, f));
                                assert(after.contains((x, f)));
                            }
                            if f == chunk.file_path@ {
                                assert(after.contains((e, f)));
                            }
                        }
                    }
                    assert forall|f: Seq<char>| #[trigger] g.cohort(f) == file_members(after, f) by {
                        assert(g.cohort(f) == (if f == chunk.file_path@ { g0.cohort(f).insert(e) } else { g0.cohort(f) }));
                        assert forall|x: i64| #[trigger] file_members(after, f).contains(x) <==> (file_members(before, f).contains(x) || (f == chunk.file_path@ && x == e)) by {
                            if file_members(after, f).contains(x) {
                                let j = choose|j: int| 0 <= j < after.len() && after[j] == (x, f);
                                if j < before.len() {
                                    assert(before[j] == (x, f));
                                }
                            }
                            if file_members(before, f).contains(x) {
                                let j = choose|j: int| 0 <= j < before.len() && before[j] == (x, f);
                                assert(after[j] == (x, f));
                            }
                            if f == chunk.file_path@ && x == e {
                                assert(after[after.len() - 1] == (x, f));
                            }
                        }
                        assert(g.cohort(f) =~= file_members(after, f));
                    }
                }
            }
            proof {
                assert(chunk.entity_ids@.take(chunk.entity_ids.len() as int) =~= chunk.entity_ids@);
                assert(chunk_pairs(cs.take(ci + 1)) =~= base + chunk.entity_ids@.map_values(|e: i64| (e, chunk.file_path@)));
            }
        }
        proof {
            assert(cs.take(chunks.len() as int) =~= cs);
            lemma_cohort_graph_law(cs, g);
        }
        g
    }
}

impl FileCohortGraph {
    /// Entities in the graph.
    pub open spec fn universe(&self) -> Set<i64> {
        self.entity_file().dom()
    }

    proof fn lemma_universe_finite(&self)
        ensures
            self.universe().finite(),
    {
        assert(self.universe() =~= self.entity_to_file@.dom());
    }

    proof fn lemma_cohort_at(&self, k: int)
        requires
            self.wf(),
            0 <= k < self.files.len(),
        ensures
            self.cohort(self.files@[k]@) == self.file_to_entities@[k]@.to_set(),
    {
        let f = self.files@[k]@;
        assert forall|e: i64| self.cohort(f).contains(e) <==> self.file_to_entities@[k]@.to_set().contains(e) by {
            if self.cohort(f).contains(e) {
                let j = choose|j: int|
                    0 <= j < self.files.len() && self.files@[j]@ == f
                        && self.file_to_entities@[j]@.contains(e);
                if j != k {
                    if j < k {
                        assert(self.files@[j]@ != self.files@[k]@);
                    } else {
                        assert(self.files@[k]@ != self.files@[j]@);
                    }
                }
            }
        }
        assert(self.cohort(f) =~= self.file_to_entities@[k]@.to_set());
    }

    proof fn lemma_neighbors_in_universe(&self, e: i64)
        requires
            self.wf(),
        ensures
            self.neighbor_set(e).subset_of(self.universe()),
    {
        assert forall|x: i64| self.neighbor_set(e).contains(x) implies self.universe().contains(x) by {
            let f = choose|f: Seq<char>| #[trigger] self.cohort(f).contains(e) && self.cohort(f).contains(x);
            let k = choose|k: int|
                0 <= k < self.files.len() && self.files@[k]@ == f
                    && self.file_to_entities@[k]@.contains(x);
            let i = choose|i: int| 0 <= i < self.file_to_entities@[k].len() && self.file_to_entities@[k]@[i] == x;
            assert(self.entity_to_file@.contains_key(self.file_to_entities@[k]@[i]));
        }
    }

    /// Number of entities in the graph.
    pub fn entity_count(&self) -> (res: usize)
        ensures
            res == self.universe().len(),
    {
        proof {
            assert(self.universe() =~= self.entity_to_file@.dom());
        }
        self.entity_to_file.len()
    }

    /// Number of files holding entities.
    pub fn file_count(&self) -> (res: usize)
        requires
            self.wf(),
        ensures
            res == self.file_set().len(),
    {
        proof {
            let views = self.files@.map_values(|s: String| s@);
            assert(views.no_duplicates()) by {
                assert forall|i: int, j: int| 0 <= i < views.len() && 0 <= j < views.len() && i != j implies views[i] != views[j] by {
                    if i < j {
                        assert(self.files@[i]@ != self.files@[j]@);
                    } else {
                        assert(self.files@[j]@ != self.files@[i]@);
                    }
                }
            }
            views.unique_seq_to_set();
            assert(views.to_set() =~= self.file_set()) by {
                assert forall|f: Seq<char>| views.to_set().contains(f) <==> self.file_set().contains(f) by {
                    if self.file_set().contains(f) {
                        let k = choose|k: int| 0 <= k < self.files.len() && self.files@[k]@ == f;
                        assert(views[k] == f);
                    }
                }
            }
        }
        self.files.len()
    }

    /// Entities sharing a file with `entity` (excluding it), ascending.
    pub fn neighbors(&self, entity: i64) -> (res: Vec<i64>)
        requires
            self.wf(),
        ensures
            strictly_sorted(res@),
            forall|x: i64| #[trigger] res@.contains(x) <==> self.neighbor_set(entity).contains(x),
    {
        let mut res: Vec<i64> = Vec::new();
        for k in 0..self.files.len()
            invariant
                self.wf(),
                strictly_sorted(res@),
                forall|x: i64| #[trigger] res@.contains(x) <==> (x != entity && exists|j: int|
                    0 <= j < k && #[trigger] self.file_to_entities@[j]@.contains(entity) && self.file_to_entities@[j]@.contains(x)),
        {
            let members = &self.file_to_entities[k];
            let mut has = false;
            for i in 0..members.len()
                invariant
                    has == members@.take(i as int).contains(entity),
            {
                proof {
                    lemma_prefix_contains(members@, i as int);
                }
                if members[i] == entity {
                    has = true;
                }
            }
            proof {
                assert(members@.take(members.len() as int) =~= members@);
            }
            let ghost before = res@;
            if has {
                for i in 0..members.len()
                    invariant
                        self.wf(),
                        k < self.files.len(),
                        members@ == self.file_to_entities@[k as int]@,
                        strictly_sorted(res@),
                        forall|y: i64| #[trigger] res@.contains(y) <==> (before.contains(y) || (y != entity && members@.take(i as int).contains(y))),
                {
                    let x = members[i];
                    proof {
                        lemma_prefix_contains(members@, i as int);
                    }
                    if x != entity {
                        res = with_inserted(&res, x);
                    }
                }
                proof {
                    assert(members@.take(members.len() as int) =~= members@);
                }
            }
            proof {
                assert forall|x: i64| #[trigger] res@.contains(x) <==> (x != entity && exists|j: int|
                    0 <= j < k + 1 && #[trigger] self.file_to_entities@[j]@.contains(entity) && self.file_to_entities@[j]@.contains(x)) by {
                    if x != entity && exists|j: int| 0 <= j < k + 1 && #[trigger] self.file_to_entities@[j]@.contains(entity) && self.file_to_entities@[j]@.contains(x) {
                        let j = choose|j: int| 0 <= j < k + 1 && #[trigger] self.file_to_entities@[j]@.contains(entity) && self.file_to_entities@[j]@.contains(x);
                        if j == k as int {
                            assert(has);
                        }
                    }
                }
            }
        }
        proof {
            assert forall|x: i64| #[trigger] res@.contains(x) <==> self.neighbor_set(entity).contains(x) by {
                if res@.contains(x) {
                    let j = choose|j: int| 0 <= j < self.files.len() && #[trigger] self.file_to_entities@[j]@.contains(entity) && self.file_to_entities@[j]@.contains(x);
                    self.lemma_cohort_at(j);
                    assert(self.file_to_entities@[j]@.to_set().contains(entity));
                    assert(self.file_to_entities@[j]@.to_set().contains(x));
                    assert(self.cohort(self.files@[j]@).contains(entity));
                }
                if self.neighbor_set(entity).contains(x) {
                    let f = choose|f: Seq<char>| #[trigger] self.cohort(f).contains(entity) && self.cohort(f).contains(x);
                    let j = choose|j: int|
                        0 <= j < self.files.len() && self.files@[j]@ == f
                            && self.file_to_entities@[j]@.contains(x);
                    self.lemma_cohort_at(j);
                    assert(self.file_to_entities@[j]@.to_set().contains(entity));
                }
            }
        }
        res
    }
}

/// Sharing a file is symmetric: `x` neighbours `e` exactly when `e`
/// neighbours `x`.
pub proof fn lemma_neighbors_symmetric(g: FileCohortGraph, e: i64, x: i64)
    ensures
        g.neighbor_set(e).contains(x) == g.neighbor_set(x).contains(e),
{
    if g.neighbor_set(e).contains(x) {
        let f = choose|f: Seq<char>| #[trigger] g.cohort(f).contains(e) && g.cohort(f).contains(x);
        assert(g.cohort(f).contains(x) && g.cohort(f).contains(e));
    }
    if g.neighbor_set(x).contains(e) {
        let f = choose|f: Seq<char>| #[trigger] g.cohort(f).contains(x) && g.cohort(f).contains(e);
        assert(g.cohort(f).contains(e) && g.cohort(f).contains(x));
    }
}

proof fn lemma_prefix_contains(s: Seq<i64>, i: int)
    requires
        0 <= i < s.len(),
    ensures
        forall|y: i64| #[trigger] s.take(i + 1).contains(y) == (s.take(i).contains(y) || s[i] == y),
{
    assert forall|y: i64| #[trigger] s.take(i + 1).contains(y) == (s.take(i).contains(y) || s[i] == y) by {
        if s.take(i + 1).contains(y) {
            let j = choose|j: int| 0 <= j < i + 1 && #[trigger] s.take(i + 1)[j] == y;
            if j < i {
                assert(s.take(i)[j] == y);
            }
        }
        if s.take(i).contains(y) {
            let j = choose|j: int| 0 <= j < i && #[trigger] s.take(i)[j] == y;
            assert(s.take(i + 1)[j] == y);
        }
        if s[i] == y {
            assert(s.take(i + 1)[i] == y);
        }
    }
}

proof fn lemma_push_to_set(s: Seq<i64>, x: i64)
    ensures
        s.push(x).to_set() == s.to_set().insert(x),
{
    assert forall|y: i64| s.push(x).to_set().contains(y) <==> s.to_set().insert(x).contains(y) by {
        if s.push(x).contains(y) {
            let j = choose|j: int| 0 <= j < s.push(x).len() && s.push(x)[j] == y;
            if j < s.len() {
                assert(s[j] == y);
            }
        }
        if s.contains(y) {
            let j = choose|j: int| 0 <= j < s.len() && s[j] == y;
            assert(s.push(x)[j] == y);
        }
        if y == x {
            assert(s.push(x)[s.len() as int] == y);
        }
    }
    assert(s.push(x).to_set() =~= s.to_set().insert(x));
}

/// Upper bound on visited entities during one traversal.
pub const MAX_NODES: usize = 10000;

/// Entities adjacent to some entity of `s`.
pub open spec fn adjacent(g: FileCohortGraph, s: Set<i64>) -> Set<i64> {
    Set::new(|x: i64| exists|p: i64| s.contains(p) && #[trigger] g.neighbor_set(p).contains(x))
}

/// Entities within `n` neighbor steps of a seed, the seeds included.
pub open spec fn within(g: FileCohortGraph, seeds: Set<i64>, n: nat) -> Set<i64>
    decreases n,
{
    if n == 0 {
        seeds
    } else {
        let prev = within(g, seeds, (n - 1) as nat);
        prev.union(adjacent(g, prev))
    }
}

/// The least `k <= n` with `x` within `k` steps of a seed (for `x` within
/// `n` steps).
pub open spec fn least_hop(g: FileCohortGraph, seeds: Set<i64>, x: i64, n: nat) -> nat
    decreases n,
{
    if n == 0 {
        0
    } else if within(g, seeds, (n - 1) as nat).contains(x) {
        least_hop(g, seeds, x, (n - 1) as nat)
    } else {
        n
    }
}

/// Breadth-first hop distances: every entity within `max_hops` steps of a
/// seed that is not itself a seed, with its shortest distance from the
/// seed set.
pub open spec fn bfs_hops(g: FileCohortGraph, seeds: Set<i64>, max_hops: nat) -> Map<i64, usize> {
    Map::new(
        |x: i64| within(g, seeds, max_hops).contains(x) && !seeds.contains(x),
        |x: i64| least_hop(g, seeds, x, max_hops) as usize,
    )
}

proof fn lemma_within_mono(g: FileCohortGraph, seeds: Set<i64>, a: nat, b: nat)
    requires
        a <= b,
    ensures
        within(g, seeds, a).subset_of(within(g, seeds, b)),
    decreases b - a,
{
    if a < b {
        lemma_within_mono(g, seeds, a, (b - 1) as nat);
        assert forall|x: i64| within(g, seeds, a).contains(x) implies within(g, seeds, b).contains(x) by {
            assert(within(g, seeds, (b - 1) as nat).contains(x));
        }
    }
}

proof fn lemma_least_hop(g: FileCohortGraph, seeds: Set<i64>, x: i64, k: nat, n: nat)
    requires
        k <= n,
        within(g, seeds, k).contains(x),
        k == 0 || !within(g, seeds, (k - 1) as nat).contains(x),
    ensures
        least_hop(g, seeds, x, n) == k,
    decreases n,
{
    if n > k {
        lemma_within_mono(g, seeds, k, (n - 1) as nat);
        lemma_least_hop(g, seeds, x, k, (n - 1) as nat);
    }
}

proof fn lemma_within_stable(g: FileCohortGraph, seeds: Set<i64>, h: nat, m: nat)
    requires
        h <= m,
        within(g, seeds, h + 1) == within(g, seeds, h),
    ensures
        within(g, seeds, m) == within(g, seeds, h),
    decreases m - h,
{
    if m > h {
        lemma_within_stable(g, seeds, h, (m - 1) as nat);
        assert(within(g, seeds, m) == within(g, seeds, h + 1));
    }
}

proof fn lemma_within_bounded(g: FileCohortGraph, seeds: Set<i64>, n: nat)
    requires
        g.wf(),
    ensures
        within(g, seeds, n).subset_of(seeds.union(g.universe())),
    decreases n,
{
    if n > 0 {
        lemma_within_bounded(g, seeds, (n - 1) as nat);
        let prev = within(g, seeds, (n - 1) as nat);
        assert forall|x: i64| adjacent(g, prev).contains(x) implies g.universe().contains(x) by {
            let p = choose|p: i64| prev.contains(p) && #[trigger] g.neighbor_set(p).contains(x);
            g.lemma_neighbors_in_universe(p);
        }
    }
}

/// The hop count of `x` within `n` steps but not a seed: the least number of
/// steps that reaches it, at least one and at most `n`.
proof fn lemma_least_hop_least(g: FileCohortGraph, seeds: Set<i64>, x: i64, n: nat)
    requires
        within(g, seeds, n).contains(x),
        !seeds.contains(x),
    ensures
        1 <= least_hop(g, seeds, x, n) <= n,
        within(g, seeds, least_hop(g, seeds, x, n)).contains(x),
        !within(g, seeds, (least_hop(g, seeds, x, n) - 1) as nat).contains(x),
    decreases n,
{
    if n > 0 && within(g, seeds, (n - 1) as nat).contains(x) {
        lemma_least_hop_least(g, seeds, x, (n - 1) as nat);
    }
}

/// Breadth-first hop distances are shortest distances: an entity gets one
/// exactly when some number of steps up to the bound reaches it and it is
/// not a seed, and its distance is the least number of steps that reaches
/// it.
pub proof fn lemma_bfs_hops_shortest(g: FileCohortGraph, seeds: Set<i64>, max_hops: nat)
    requires
        max_hops <= usize::MAX,
    ensures
        forall|x: i64| #[trigger] bfs_hops(g, seeds, max_hops).contains_key(x)
            <==> (within(g, seeds, max_hops).contains(x) && !seeds.contains(x)),
        forall|x: i64| #[trigger] bfs_hops(g, seeds, max_hops).contains_key(x) ==> {
            &&& 1 <= bfs_hops(g, seeds, max_hops)[x] <= max_hops
            &&& within(g, seeds, bfs_hops(g, seeds, max_hops)[x] as nat).contains(x)
            &&& !within(g, seeds, (bfs_hops(g, seeds, max_hops)[x] - 1) as nat).contains(x)
        },
{
    assert forall|x: i64| #[trigger] bfs_hops(g, seeds, max_hops).contains_key(x) implies {
        &&& 1 <= bfs_hops(g, seeds, max_hops)[x] <= max_hops
        &&& within(g, seeds, bfs_hops(g, seeds, max_hops)[x] as nat).contains(x)
        &&& !within(g, seeds, (bfs_hops(g, seeds, max_hops)[x] - 1) as nat).contains(x)
    } by {
        lemma_least_hop_least(g, seeds, x, max_hops);
    }
}

/// Breadth-first traversal of the cohort graph from the seed entities, one
/// hop layer at a time, up to `max_hops` layers; an entity is expanded only
/// while at most `MAX_NODES` entities have been visited.
///
/// Every reported entity is not a seed, lies in the graph and is reported
/// with a hop count between 1 and `max_hops` within which it is reachable.
/// When the entities within `max_hops` steps of the seeds are at most
/// `MAX_NODES`, the result is exactly their shortest hop distances
/// (`bfs_hops`).
pub fn expand_cohort(graph: &FileCohortGraph, seeds: &[i64], max_hops: usize) -> (res: HashMap<i64, usize>)
    requires
        graph.wf(),
    ensures
        forall|e: i64| #[trigger] res@.contains_key(e) ==> {
            &&& !seeds@.contains(e)
            &&& 1 <= res@[e] <= max_hops
            &&& graph.universe().contains(e)
            &&& within(*graph, seeds@.to_set(), res@[e] as nat).contains(e)
        },
        within(*graph, seeds@.to_set(), max_hops as nat).len() <= MAX_NODES
            ==> res@ == bfs_hops(*graph, seeds@.to_set(), max_hops as nat),
        within(*graph, seeds@.to_set(), max_hops as nat).len() <= MAX_NODES ==> {
            &&& forall|e: i64| #[trigger] res@.contains_key(e)
                ==> !within(*graph, seeds@.to_set(), (res@[e] - 1) as nat).contains(e)
            &&& forall|e: i64| #[trigger] within(*graph, seeds@.to_set(), max_hops as nat).contains(e)
                && !seeds@.contains(e) ==> res@.contains_key(e)
        },
{
    let ghost S = seeds@.to_set();
    let ghost W = within(*graph, S, max_hops as nat);
    let ghost full = W.len() <= MAX_NODES;
    proof {
        lemma_within_bounded(*graph, S, max_hops as nat);
        graph.lemma_universe_finite();
        seeds@.lemma_cardinality_of_set();
        vstd::seq_lib::seq_to_set_is_finite(seeds@);
        vstd::set_lib::lemma_set_subset_finite(S.union(graph.universe()), W);
    }
    let mut related: HashMap<i64, usize> = HashMap::new();
    let mut visited: HashSet<i64> = HashSet::new();
    let mut frontier: Vec<i64> = Vec::new();
    for i in 0..seeds.len()
        invariant
            related@ == Map::<i64, usize>::empty(),
            visited@ == seeds@.take(i as int).to_set(),
            frontier@ == seeds@.take(i as int),
    {
        visited.insert(seeds[i]);
        frontier.push(seeds[i]);
        proof {
            assert(seeds@.take(i + 1) =~= seeds@.take(i as int).push(seeds@[i as int]));
            lemma_push_to_set(seeds@.take(i as int), seeds@[i as int]);
        }
    }
    proof {
        assert(seeds@.take(seeds.len() as int) =~= seeds@);
        assert(visited@ =~= S.union(related@.dom()));
        assert forall|x: i64| within(*graph, S, 0).contains(x) implies frontier@.contains(x) by {
            assert(seeds@.to_set().contains(x));
        }
    }
    let mut hop: usize = 0;
    while hop < max_hops && frontier.len() > 0
        invariant
            graph.wf(),
            hop <= max_hops,
            S == seeds@.to_set(),
            W == within(*graph, S, max_hops as nat),
            W.finite(),
            full == (W.len() <= MAX_NODES),
            visited@ == S.union(related@.dom()),
            forall|e: i64| #[trigger] related@.contains_key(e) ==> {
                &&& !S.contains(e)
                &&& 1 <= related@[e] <= hop
                &&& graph.universe().contains(e)
                &&& within(*graph, S, related@[e] as nat).contains(e)
            },
            forall|j: int| 0 <= j < frontier.len() ==> within(*graph, S, hop as nat).contains(#[trigger] frontier@[j]),
            full ==> visited@ == within(*graph, S, hop as nat),
            full ==> forall|x: i64| #[trigger] within(*graph, S, hop as nat).contains(x)
                && (hop == 0 || !within(*graph, S, (hop - 1) as nat).contains(x)) ==> frontier@.contains(x),
            full ==> forall|e: i64| #[trigger] related@.contains_key(e) ==> !within(*graph, S, (related@[e] - 1) as nat).contains(e),
        decreases max_hops - hop,
    {
        let ghost H = hop as nat;
        let ghost Wh = within(*graph, S, H);
        proof {
            lemma_within_mono(*graph, S, H + 1, max_hops as nat);
        }
        let mut next: Vec<i64> = Vec::new();
        for i in 0..frontier.len()
            invariant
                graph.wf(),
                hop < max_hops,
                H == hop as nat,
                Wh == within(*graph, S, H),
                S == seeds@.to_set(),
                W == within(*graph, S, max_hops as nat),
                W.finite(),
                full == (W.len() <= MAX_NODES),
                within(*graph, S, H + 1).subset_of(W),
                visited@ == S.union(related@.dom()),
                forall|e: i64| #[trigger] related@.contains_key(e) ==> {
                    &&& !S.contains(e)
                    &&& 1 <= related@[e] <= hop + 1
                    &&& graph.universe().contains(e)
                    &&& within(*graph, S, related@[e] as nat).contains(e)
                },
                forall|j: int| 0 <= j < frontier.len() ==> Wh.contains(#[trigger] frontier@[j]),
                forall|j: int| 0 <= j < next.len() ==> within(*graph, S, H + 1).contains(#[trigger] next@[j]),
                full ==> forall|x: i64| #[trigger] visited@.contains(x) <==> (Wh.contains(x)
                    || exists|j: int| 0 <= j < i && #[trigger] graph.neighbor_set(frontier@[j]).contains(x)),
                full ==> forall|x: i64| #[trigger] visited@.contains(x) && !Wh.contains(x) ==> next@.contains(x),
                full ==> forall|e: i64| #[trigger] related@.contains_key(e) ==> !within(*graph, S, (related@[e] - 1) as nat).contains(e),
                full ==> forall|x: i64| #[trigger] Wh.contains(x) && (hop == 0 || !within(*graph, S, (hop - 1) as nat).contains(x))
                    ==> frontier@.contains(x),
        {
            let entity = frontier[i];
            proof {
                if full {
                    assert forall|x: i64| visited@.contains(x) implies within(*graph, S, H + 1).contains(x) by {
                        if !Wh.contains(x) {
                            let j = choose|j: int| 0 <= j < i && #[trigger] graph.neighbor_set(frontier@[j]).contains(x);
                            assert(Wh.contains(frontier@[j]));
                            assert(adjacent(*graph, Wh).contains(x));
                        }
                    }
                    vstd::set_lib::lemma_len_subset(visited@, W);
                }
            }
            if visited.len() <= MAX_NODES {
                let ns = graph.neighbors(entity);
                let ghost vis0 = visited@;
                let ghost next0 = next@;
                for k in 0..ns.len()
                    invariant
                        graph.wf(),
                        hop < max_hops,
                        H == hop as nat,
                        Wh == within(*graph, S, H),
                        S == seeds@.to_set(),
                        Wh.contains(entity),
                        entity == frontier@[i as int],
                        i < frontier.len(),
                        forall|x: i64| #[trigger] ns@.contains(x) <==> graph.neighbor_set(entity).contains(x),
                        visited@ == S.union(related@.dom()),
                        vis0.subset_of(visited@),
                        forall|x: i64| #[trigger] visited@.contains(x) ==> vis0.contains(x) || ns@.take(k as int).contains(x),
                        forall|j: int| 0 <= j < k ==> visited@.contains(#[trigger] ns@[j]),
                        forall|e: i64| #[trigger] related@.contains_key(e) ==> {
                            &&& !S.contains(e)
                            &&& 1 <= related@[e] <= hop + 1
                            &&& graph.universe().contains(e)
                            &&& within(*graph, S, related@[e] as nat).contains(e)
                        },
                        forall|j: int| 0 <= j < next.len() ==> within(*graph, S, H + 1).contains(#[trigger] next@[j]),
                        forall|x: i64| #[trigger] visited@.contains(x) && !vis0.contains(x) ==> next@.contains(x),
                        full ==> Wh.subset_of(vis0),
                        next0.len() <= next.len(),
                        forall|j: int| 0 <= j < next0.len() ==> next@[j] == #[trigger] next0[j],
                        full ==> forall|e: i64| #[trigger] related@.contains_key(e) ==> !within(*graph, S, (related@[e] - 1) as nat).contains(e),
                {
                    let n = ns[k];
                    proof {
                        assert(ns@.contains(n));
                        graph.lemma_neighbors_in_universe(entity);
                        lemma_prefix_contains(ns@, k as int);
                    }
                    let ghost vb = visited@;
                    let ghost nb = next@;
                    let inserted = visited.insert(n);
                    if inserted {
                        related.insert(n, hop + 1);
                        next.push(n);
                        proof {
                            assert(adjacent(*graph, Wh).contains(n));
                            assert(within(*graph, S, H + 1).contains(n));
                            assert(!S.contains(n)) by {
                                assert(!vb.contains(n));
                            }
                            assert(visited@ =~= S.union(related@.dom()));
                            assert forall|j: int| 0 <= j < next.len() implies within(*graph, S, H + 1).contains(#[trigger] next@[j]) by {
                                if j < nb.len() {
                                    assert(next@[j] == nb[j]);
                                }
                            }
                            assert forall|x: i64| #[trigger] visited@.contains(x) && !vis0.contains(x) implies next@.contains(x) by {
                                if x == n {
                                    assert(next@[nb.len() as int] == n);
                                } else {
                                    assert(vb.contains(x));
                                    let j = choose|j: int| 0 <= j < nb.len() && nb[j] == x;
                                    assert(next@[j] == x);
                                }
                            }
                            if full {
                                assert(!Wh.contains(n));
                            }
                        }
                    } else {
                        proof {
                            assert(visited@ =~= vb);
                        }
                    }
                }
                proof {
                    assert(ns@.take(ns.len() as int) =~= ns@);
                    if full {
                        assert forall|x: i64| #[trigger] visited@.contains(x) && !Wh.contains(x) implies next@.contains(x) by {
                            if vis0.contains(x) {
                                assert(next0.contains(x));
                                let j = choose|j: int| 0 <= j < next0.len() && next0[j] == x;
                                assert(next@[j] == next0[j]);
                            }
                        }
                        assert forall|x: i64| #[trigger] visited@.contains(x) <==> (Wh.contains(x)
                            || exists|j: int| 0 <= j < i + 1 && #[trigger] graph.neighbor_set(frontier@[j]).contains(x)) by {
                            if visited@.contains(x) && !vis0.contains(x) {
                                assert(ns@.contains(x));
                                assert(graph.neighbor_set(frontier@[i as int]).contains(x));
                            }
                            if graph.neighbor_set(frontier@[i as int]).contains(x) {
                                assert(ns@.contains(x));
                                let k2 = choose|k2: int| 0 <= k2 < ns.len() && ns@[k2] == x;
                                assert(visited@.contains(ns@[k2]));
                            }
                            if exists|j: int| 0 <= j < i && #[trigger] graph.neighbor_set(frontier@[j]).contains(x) {
                                assert(vis0.contains(x));
                            }
                        }
                    }
                }
            } else {
                proof {
                    assert(!full);
                }
            }
        }
        proof {
            if full {
                // the visited set is now exactly the next layer's reach
                assert forall|x: i64| visited@.contains(x) <==> #[trigger] within(*graph, S, H + 1).contains(x) by {
                    if adjacent(*graph, Wh).contains(x) && !Wh.contains(x) {
                        let p = choose|p: i64| Wh.contains(p) && #[trigger] graph.neighbor_set(p).contains(x);
                        if frontier@.contains(p) {
                            let j = choose|j: int| 0 <= j < frontier.len() && frontier@[j] == p;
                            assert(graph.neighbor_set(frontier@[j]).contains(x));
                        } else {
                            assert(hop > 0);
                            assert(within(*graph, S, (H - 1) as nat).contains(p));
                            assert(adjacent(*graph, within(*graph, S, (H - 1) as nat)).contains(x));
                            assert(Wh.contains(x));
                        }
                    }
                    if visited@.contains(x) && !Wh.contains(x) {
                        let j = choose|j: int| 0 <= j < frontier.len() && #[trigger] graph.neighbor_set(frontier@[j]).contains(x);
                        assert(Wh.contains(frontier@[j]));
                        assert(adjacent(*graph, Wh).contains(x));
                    }
                }
                assert(visited@ =~= within(*graph, S, H + 1));
                assert forall|x: i64| #[trigger] within(*graph, S, H + 1).contains(x) && (H + 1 == 0 || !within(*graph, S, H).contains(x))
                    implies next@.contains(x) by {
                    assert(visited@.contains(x));
                }
            }
        }
        frontier = next;
        hop = hop + 1;
    }
    proof {
        if full {
            let H = hop as nat;
            if hop < max_hops {
                // the last layer was empty: nothing lies further out
                assert forall|x: i64| adjacent(*graph, within(*graph, S, H)).contains(x) implies within(*graph, S, H).contains(x) by {
                    let p = choose|p: i64| within(*graph, S, H).contains(p) && #[trigger] graph.neighbor_set(p).contains(x);
                    if hop == 0 || !within(*graph, S, (H - 1) as nat).contains(p) {
                        assert(frontier@.contains(p));
                    }
                    assert(adjacent(*graph, within(*graph, S, (H - 1) as nat)).contains(x));
                }
                assert(within(*graph, S, H + 1) =~= within(*graph, S, H));
                lemma_within_stable(*graph, S, H, max_hops as nat);
            }
            assert forall|x: i64| #[trigger] related@.contains_key(x) <==> bfs_hops(*graph, S, max_hops as nat).contains_key(x) by {
                if related@.contains_key(x) {
                    assert(visited@.contains(x));
                }
                if bfs_hops(*graph, S, max_hops as nat).contains_key(x) {
                    assert(visited@.contains(x));
                }
            }
            assert forall|x: i64| #[trigger] related@.contains_key(x) implies related@[x] == bfs_hops(*graph, S, max_hops as nat)[x] by {
                lemma_least_hop(*graph, S, x, related@[x] as nat, max_hops as nat);
            }
            assert(related@ =~= bfs_hops(*graph, S, max_hops as nat));
        }
        assert forall|e: i64| #[trigger] related@.contains_key(e) implies !seeds@.contains(e) by {
            if seeds@.contains(e) {
                assert(S.contains(e));
            }
        }
        lemma_bfs_hops_shortest(*graph, S, max_hops as nat);
        if full {
            assert forall|e: i64| #[trigger] W.contains(e) && !seeds@.contains(e) implies related@.contains_key(e) by {
                if !S.contains(e) {
                    assert(bfs_hops(*graph, S, max_hops as nat).contains_key(e));
                } else {
                    let k = choose|k: int| 0 <= k < seeds@.len() && seeds@[k] == e;
                    assert(seeds@[k] == e);
                }
            }
        }
    }
    related
}

/// A copy of a strictly ascending list with `x` added (no change when it is
/// already present).
fn with_inserted(list: &Vec<i64>, x: i64) -> (res: Vec<i64>)
    requires
        strictly_sorted(list@),
    ensures
        strictly_sorted(res@),
        res@.to_set() == list@.to_set().insert(x),
        forall|y: i64| #[trigger] res@.contains(y) <==> (list@.contains(y) || y == x),
{
    let mut res: Vec<i64> = Vec::new();
    let mut i: usize = 0;
    while i < list.len() && list[i] < x
        invariant
            0 <= i <= list.len(),
            strictly_sorted(list@),
            res@ == list@.take(i as int),
            forall|j: int| 0 <= j < i ==> list@[j] < x,
        decreases list.len() - i,
    {
        res.push(list[i]);
        i = i + 1;
        proof {
            assert(res@ =~= list@.take(i as int));
        }
    }
    let ghost split = i;
    if i == list.len() || list[i] != x {
        res.push(x);
    }
    let ghost mid = res@;
    while i < list.len()
        invariant
            split <= i <= list.len(),
            strictly_sorted(list@),
            res@ == mid + list@.subrange(split as int, i as int),
            forall|j: int| 0 <= j < mid.len() ==> mid[j] <= x,
            strictly_sorted(mid),
            mid.len() > 0 ==> mid.last() == x || (split < list.len() && list@[split as int] == x),
            split < list.len() ==> list@[split as int] >= x,
        decreases list.len() - i,
    {
        res.push(list[i]);
        i = i + 1;
        proof {
            assert(res@ =~= mid + list@.subrange(split as int, i as int));
        }
    }
    proof {
        assert(res@ =~= mid + list@.subrange(split as int, list.len() as int));
        assert(strictly_sorted(res@)) by {
            assert forall|a: int, b: int| 0 <= a < b < res@.len() implies res@[a] < res@[b] by {
                if b >= mid.len() {
                    let lb = split + (b - mid.len());
                    if a < mid.len() {
                        if mid.last() == x && mid.len() == split + 1 {
                            if split < list.len() && list@[split as int] == x {
                            } else {
                                assert(list@[lb] > x || lb == split) ;
                            }
                        }
                    }
                }
            }
        }
        assert forall|y: i64| #[trigger] res@.contains(y) <==> (list@.contains(y) || y == x) by {
            if list@.contains(y) {
                let j = choose|j: int| 0 <= j < list.len() && list@[j] == y;
                if j < split {
                    assert(res@[j] == y);
                } else if j == split && list@[j] == x && mid.len() == split {
                    assert(res@[mid.len() + (j - split)] == y);
                } else {
                    assert(res@[mid.len() + (j - split)] == y);
                }
            }
            if y == x {
                if mid.len() > split {
                    assert(res@[split as int] == x);
                } else {
                    assert(res@[mid.len() as int] == list@[split as int]);
                }
            }
            if res@.contains(y) {
                let j = choose|j: int| 0 <= j < res@.len() && res@[j] == y;
                if j < split {
                    assert(list@[j] == y);
                } else if j < mid.len() {
                } else {
                    assert(list@[split + (j - mid.len())] == y);
                }
            }
        }
        assert(res@.to_set() =~= list@.to_set().insert(x));
    }
    res
}

/// First entity id of a chunk (candidates are matched by it alone).
pub open spec fn primary_spec(chunk: ChunkData) -> Option<i64> {
    if chunk.entity_ids@.len() > 0 {
        Some(chunk.entity_ids@[0])
    } else {
        None
    }
}

/// First entity id of a chunk.
pub fn primary_entity(chunk: &ChunkData) -> (res: Option<i64>)
    ensures
        res == primary_spec(*chunk),
{
    if chunk.entity_ids.len() > 0 {
        Some(chunk.entity_ids[0])
    } else {
        None
    }
}

/// Primary entities of the ranked candidates that name a chunk, in order.
pub open spec fn ranked_primaries(ranked: Seq<usize>, chunks: Seq<ChunkData>) -> Seq<i64>
    decreases ranked.len(),
{
    if ranked.len() == 0 {
        Seq::empty()
    } else {
        let i = ranked.last() as int;
        ranked_primaries(ranked.drop_last(), chunks) + if i < chunks.len() && primary_spec(chunks[i]) is Some {
            seq![primary_spec(chunks[i])->0]
        } else {
            Seq::empty()
        }
    }
}

/// Ranked candidates whose chunk's primary entity was reached, with the hop
/// count at which it was reached, in rank order.
pub open spec fn related_candidates_spec(ranked: Seq<usize>, chunks: Seq<ChunkData>, related: Map<i64, usize>) -> Seq<(usize, usize)>
    decreases ranked.len(),
{
    if ranked.len() == 0 {
        Seq::empty()
    } else {
        let i = ranked.last() as int;
        related_candidates_spec(ranked.drop_last(), chunks, related) + if i < chunks.len() && primary_spec(chunks[i]) is Some
            && related.contains_key(primary_spec(chunks[i])->0) {
            seq![(ranked.last(), related[primary_spec(chunks[i])->0])]
        } else {
            Seq::empty()
        }
    }
}

/// Some ranked candidate names a chunk whose first entity id is `e`.
pub open spec fn first_entity_of_ranked(ranked: Seq<usize>, chunks: Seq<ChunkData>, e: i64) -> bool {
    exists|k: int| 0 <= k < ranked.len() && (#[trigger] ranked[k]) < chunks.len()
        && chunks[ranked[k] as int].entity_ids@.len() > 0 && chunks[ranked[k] as int].entity_ids@[0] == e
}

/// The primary entities of ranked candidates are the first entity ids of
/// the ranked chunks that have one: each comes from such a chunk, and each
/// such chunk contributes its first entity id.
pub proof fn lemma_ranked_primaries_law(ranked: Seq<usize>, chunks: Seq<ChunkData>)
    ensures
        ranked_primaries(ranked, chunks).len() <= ranked.len(),
        forall|j: int| 0 <= j < ranked_primaries(ranked, chunks).len()
            ==> first_entity_of_ranked(ranked, chunks, #[trigger] ranked_primaries(ranked, chunks)[j]),
        forall|k: int| 0 <= k < ranked.len() && (#[trigger] ranked[k]) < chunks.len() && chunks[ranked[k] as int].entity_ids@.len() > 0
            ==> ranked_primaries(ranked, chunks).contains(chunks[ranked[k] as int].entity_ids@[0]),
    decreases ranked.len(),
{
    if ranked.len() > 0 {
        let d = ranked.drop_last();
        lemma_ranked_primaries_law(d, chunks);
        let p = ranked_primaries(d, chunks);
        let r = ranked_primaries(ranked, chunks);
        let i = ranked.last() as int;
        let n = ranked.len() as int;
        assert forall|k: int| 0 <= k < n - 1 implies #[trigger] d[k] == ranked[k] by {}
        let adds = i < chunks.len() && primary_spec(chunks[i]) is Some;
        if adds {
            assert(r == p.push(chunks[i].entity_ids@[0]));
        } else {
            assert(r == p);
        }
        assert forall|j: int| 0 <= j < r.len() implies first_entity_of_ranked(ranked, chunks, #[trigger] r[j]) by {
            if j < p.len() {
                assert(r[j] == p[j]);
                assert(first_entity_of_ranked(d, chunks, p[j]));
                let k = choose|k: int| 0 <= k < d.len() && (#[trigger] d[k]) < chunks.len()
                    && chunks[d[k] as int].entity_ids@.len() > 0 && chunks[d[k] as int].entity_ids@[0] == p[j];
                assert(ranked[k] == d[k]);
            } else {
                assert(ranked[n - 1] == ranked.last());
            }
        }
        assert forall|k: int| 0 <= k < n && (#[trigger] ranked[k]) < chunks.len() && chunks[ranked[k] as int].entity_ids@.len() > 0
            implies r.contains(chunks[ranked[k] as int].entity_ids@[0]) by {
            if k < n - 1 {
                assert(d[k] == ranked[k]);
                assert(p.contains(chunks[d[k] as int].entity_ids@[0]));
                let t = choose|t: int| 0 <= t < p.len() && p[t] == chunks[d[k] as int].entity_ids@[0];
                assert(r[t] == p[t]);
            } else {
                assert(r[p.len() as int] == chunks[i].entity_ids@[0]);
            }
        }
    }
}

/// Some ranked candidate is `idx`.
pub open spec fn is_ranked(ranked: Seq<usize>, idx: usize) -> bool {
    exists|k: int| 0 <= k < ranked.len() && #[trigger] ranked[k] == idx
}

/// The related candidates are exactly the ranked candidates whose chunk's
/// first entity id was reached, each with the hop count of that entity.
pub proof fn lemma_related_candidates_law(ranked: Seq<usize>, chunks: Seq<ChunkData>, related: Map<i64, usize>)
    ensures
        related_candidates_spec(ranked, chunks, related).len() <= ranked.len(),
        forall|j: int| 0 <= j < related_candidates_spec(ranked, chunks, related).len() ==> {
            let (idx, hops) = #[trigger] related_candidates_spec(ranked, chunks, related)[j];
            &&& is_ranked(ranked, idx)
            &&& idx < chunks.len()
            &&& chunks[idx as int].entity_ids@.len() > 0
            &&& related.contains_key(chunks[idx as int].entity_ids@[0])
            &&& hops == related[chunks[idx as int].entity_ids@[0]]
        },
        forall|k: int| 0 <= k < ranked.len() && (#[trigger] ranked[k]) < chunks.len()
            && chunks[ranked[k] as int].entity_ids@.len() > 0 && related.contains_key(chunks[ranked[k] as int].entity_ids@[0])
            ==> related_candidates_spec(ranked, chunks, related).contains((ranked[k], related[chunks[ranked[k] as int].entity_ids@[0]])),
    decreases ranked.len(),
{
    if ranked.len() > 0 {
        let d = ranked.drop_last();
        lemma_related_candidates_law(d, chunks, related);
        let p = related_candidates_spec(d, chunks, related);
        let r = related_candidates_spec(ranked, chunks, related);
        let i = ranked.last() as int;
        let n = ranked.len() as int;
        assert forall|k: int| 0 <= k < n - 1 implies #[trigger] d[k] == ranked[k] by {}
        let adds = i < chunks.len() && primary_spec(chunks[i]) is Some && related.contains_key(primary_spec(chunks[i])->0);
        if adds {
            assert(r == p.push((ranked.last(), related[chunks[i].entity_ids@[0]])));
        } else {
            assert(r == p);
        }
        assert forall|j: int| 0 <= j < r.len() implies {
            let (idx, hops) = #[trigger] r[j];
            &&& is_ranked(ranked, idx)
            &&& idx < chunks.len()
            &&& chunks[idx as int].entity_ids@.len() > 0
            &&& related.contains_key(chunks[idx as int].entity_ids@[0])
            &&& hops == related[chunks[idx as int].entity_ids@[0]]
        } by {
            if j < p.len() {
                assert(r[j] == p[j]);
                let idx = p[j].0;
                assert(is_ranked(d, idx));
                let k = choose|k: int| 0 <= k < d.len() && #[trigger] d[k] == idx;
                assert(ranked[k] == idx);
            } else {
                assert(ranked[n - 1] == ranked.last());
            }
        }
        assert forall|k: int| 0 <= k < n && (#[trigger] ranked[k]) < chunks.len()
            && chunks[ranked[k] as int].entity_ids@.len() > 0 && related.contains_key(chunks[ranked[k] as int].entity_ids@[0])
            implies r.contains((ranked[k], related[chunks[ranked[k] as int].entity_ids@[0]])) by {
            let x = (ranked[k], related[chunks[ranked[k] as int].entity_ids@[0]]);
            if k < n - 1 {
                assert(d[k] == ranked[k]);
                assert(p.contains(x));
                let t = choose|t: int| 0 <= t < p.len() && p[t] == x;
                assert(r[t] == p[t]);
            } else {
                assert(r[p.len() as int] == x);
            }
        }
    }
}

/// Seeds of the relation signal: the primary entities of the first `top_n`
/// ranked candidates.
pub fn relation_seeds(ranked: &[usize], chunks: &[ChunkData], top_n: usize) -> (res: Vec<i64>)
    ensures
        res@ == ranked_primaries(ranked@.take(if top_n < ranked.len() { top_n as int } else { ranked.len() as int }), chunks@),
{
    let n = if top_n < ranked.len() { top_n } else { ranked.len() };
    let mut seeds: Vec<i64> = Vec::new();
    for k in 0..n
        invariant
            n <= ranked.len(),
            seeds@ == ranked_primaries(ranked@.take(k as int), chunks@),
    {
        proof {
            assert(ranked@.take(k + 1).drop_last() =~= ranked@.take(k as int));
        }
        let idx = ranked[k];
        if idx < chunks.len() {
            if let Some(e) = primary_entity(&chunks[idx]) {
                seeds.push(e);
            }
        }
        proof {
            assert(seeds@ =~= ranked_primaries(ranked@.take(k + 1), chunks@));
        }
    }
    seeds
}

/// The ranked candidates whose primary entity is in `related`, with its hop
/// count.
pub fn related_candidates(ranked: &[usize], chunks: &[ChunkData], related: &HashMap<i64, usize>) -> (res: Vec<(usize, usize)>)
    ensures
        res@ == related_candidates_spec(ranked@, chunks@, related@),
{
    let mut out: Vec<(usize, usize)> = Vec::new();
    for k in 0..ranked.len()
        invariant
            out@ == related_candidates_spec(ranked@.take(k as int), chunks@, related@),
    {
        proof {
            assert(ranked@.take(k + 1).drop_last() =~= ranked@.take(k as int));
        }
        let idx = ranked[k];
        if idx < chunks.len() {
            if let Some(e) = primary_entity(&chunks[idx]) {
                if let Some(h) = related.get(&e) {
                    out.push((idx, *h));
                }
            }
        }
        proof {
            assert(out@ =~= related_candidates_spec(ranked@.take(k + 1), chunks@, related@));
        }
    }
    proof {
        assert(ranked@.take(ranked.len() as int) =~= ranked@);
    }
    out
}

/// Seeds of the relation signal as a sequence: the primary entities of the
/// first `top_n` ranked candidates.
pub open spec fn seed_entities(ranked: Seq<usize>, chunks: Seq<ChunkData>, top_n: usize) -> Seq<i64> {
    ranked_primaries(ranked.take(if top_n < ranked.len() { top_n as int } else { ranked.len() as int }), chunks)
}

/// Hop counts of the relation signal per candidate: the primary entities of
/// the first `top_n` ranked candidates seed a breadth-first cohort traversal
/// of at most `max_hops`; every ranked candidate whose primary entity was
/// reached gets its hop count. Nothing when there are no seeds.
pub fn relation_hops(
    ranked: &[usize],
    chunks: &[ChunkData],
    graph: &FileCohortGraph,
    top_n: usize,
    max_hops: usize,
) -> (res: Vec<(usize, usize)>)
    requires
        graph.wf(),
    ensures
        seed_entities(ranked@, chunks@, top_n).len() == 0 ==> res@.len() == 0,
        forall|j: int| 0 <= j < res@.len() ==> {
            let (idx, hops) = #[trigger] res@[j];
            &&& idx < chunks.len()
            &&& primary_spec(chunks@[idx as int]) is Some
            &&& 1 <= hops <= max_hops
            &&& within(*graph, seed_entities(ranked@, chunks@, top_n).to_set(), hops as nat).contains(
                primary_spec(chunks@[idx as int])->0)
        },
        within(*graph, seed_entities(ranked@, chunks@, top_n).to_set(), max_hops as nat).len() <= MAX_NODES
            ==> res@ == related_candidates_spec(ranked@, chunks@,
                bfs_hops(*graph, seed_entities(ranked@, chunks@, top_n).to_set(), max_hops as nat)),
{
    let seeds = relation_seeds(ranked, chunks, top_n);
    if seeds.len() == 0 {
        let empty: Vec<(usize, usize)> = Vec::new();
        proof {
            lemma_empty_map_relates_nothing(ranked@, chunks@);
            let S = seeds@.to_set();
            assert(S =~= Set::<i64>::empty());
            lemma_within_empty(*graph, max_hops as nat);
            assert(bfs_hops(*graph, S, max_hops as nat) =~= Map::<i64, usize>::empty());
        }
        return empty;
    }
    let related = expand_cohort(graph, seeds.as_slice(), max_hops);
    let out = related_candidates(ranked, chunks, &related);
    proof {
        lemma_related_candidates_props(ranked@, chunks@, related@);
        assert forall|j: int| 0 <= j < out@.len() implies {
            let (idx, hops) = #[trigger] out@[j];
            &&& idx < chunks.len()
            &&& primary_spec(chunks@[idx as int]) is Some
            &&& 1 <= hops <= max_hops
            &&& within(*graph, seeds@.to_set(), hops as nat).contains(primary_spec(chunks@[idx as int])->0)
        } by {
            let e = primary_spec(chunks@[out@[j].0 as int])->0;
            assert(related@.contains_key(e));
        }
    }
    out
}

proof fn lemma_within_empty(g: FileCohortGraph, n: nat)
    ensures
        within(g, Set::<i64>::empty(), n) == Set::<i64>::empty(),
    decreases n,
{
    if n > 0 {
        lemma_within_empty(g, (n - 1) as nat);
        assert(adjacent(g, Set::<i64>::empty()) =~= Set::<i64>::empty());
        assert(within(g, Set::<i64>::empty(), n) =~= Set::<i64>::empty());
    }
}

proof fn lemma_empty_map_relates_nothing(ranked: Seq<usize>, chunks: Seq<ChunkData>)
    ensures
        related_candidates_spec(ranked, chunks, Map::<i64, usize>::empty()) == Seq::<(usize, usize)>::empty(),
    decreases ranked.len(),
{
    if ranked.len() > 0 {
        lemma_empty_map_relates_nothing(ranked.drop_last(), chunks);
    }
}

proof fn lemma_related_candidates_props(ranked: Seq<usize>, chunks: Seq<ChunkData>, related: Map<i64, usize>)
    ensures
        forall|j: int| 0 <= j < related_candidates_spec(ranked, chunks, related).len() ==> {
            let (idx, hops) = #[trigger] related_candidates_spec(ranked, chunks, related)[j];
            &&& idx < chunks.len()
            &&& primary_spec(chunks[idx as int]) is Some
            &&& related.contains_key(primary_spec(chunks[idx as int])->0)
            &&& hops == related[primary_spec(chunks[idx as int])->0]
        },
    decreases ranked.len(),
{
    if ranked.len() > 0 {
        lemma_related_candidates_props(ranked.drop_last(), chunks, related);
        let prev = related_candidates_spec(ranked.drop_last(), chunks, related);
        let all = related_candidates_spec(ranked, chunks, related);
        assert forall|j: int| 0 <= j < all.len() implies {
            let (idx, hops) = #[trigger] all[j];
            &&& idx < chunks.len()
            &&& primary_spec(chunks[idx as int]) is Some
            &&& related.contains_key(primary_spec(chunks[idx as int])->0)
            &&& hops == related[primary_spec(chunks[idx as int])->0]
        } by {
            if j < prev.len() {
                assert(all[j] == prev[j]);
            }
        }
    }
}

} // verus!
