use cce_e2e::aggregation_enhance::benchmark::{fused_entity, is_production_parity, ordered_methods, output_dir};
use cce_e2e::aggregation_enhance::enhance::{
    expand_cohort, primary_entity, relation_hops, relation_seeds, FileCohortGraph,
};
use cce_e2e::aggregation_enhance::report::{md_table, parity_mark};
use cce_e2e::bench_data::{ChunkData, ChunkSourceRange, TestInfo, TestStatus};

fn chunk(id: &str, file: &str, entities: Vec<i64>) -> ChunkData {
    ChunkData {
        chunk_id: id.to_string(),
        entity_name: String::new(),
        file_path: file.to_string(),
        start_line: 1,
        end_line: 10,
        source_ranges: vec![ChunkSourceRange {
            start_line: 1,
            end_line: 10,
        }],
        source_span_kind: String::new(),
        test_info: TestInfo { status: TestStatus::Unknown },
        language: None,
        entity_ids: entities,
        segment_id: String::new(),
    }
}

#[test]
fn cohort_graph_groups_entities_by_file() {
    let chunks = vec![
        chunk("a", "src/lib.rs", vec![1, 2]),
        chunk("b", "src/lib.rs", vec![3]),
        chunk("c", "src/race.rs", vec![4]),
    ];
    let refs: Vec<&ChunkData> = chunks.iter().collect();
    let graph = FileCohortGraph::build(&refs);
    assert_eq!(graph.entity_count(), 4);
    assert_eq!(graph.file_count(), 2);
    let mut neighbors = graph.neighbors(1);
    neighbors.sort_unstable();
    assert_eq!(neighbors, vec![2, 3]);
    assert!(graph.neighbors(4).is_empty());
}

#[test]
fn expand_cohort_respects_max_hops() {
    let chunks = vec![
        chunk("a", "f1", vec![1]),
        chunk("b", "f1", vec![2]),
        chunk("c", "f2", vec![2, 3]),
    ];
    let refs: Vec<&ChunkData> = chunks.iter().collect();
    let graph = FileCohortGraph::build(&refs);
    // Entity 2 bridges f1 and f2, so 3 is two hops from 1.
    let one_hop = expand_cohort(&graph, &[1], 1);
    assert_eq!(one_hop.get(&2), Some(&1));
    assert!(!one_hop.contains_key(&3));
    let two_hop = expand_cohort(&graph, &[1], 2);
    assert_eq!(two_hop.get(&3), Some(&2));
    // Seeds themselves are never reported as related.
    assert!(!two_hop.contains_key(&1));
}

#[test]
fn entity_neighbors_span_all_its_files() {
    let chunks = vec![chunk("a", "f1", vec![7, 8]), chunk("b", "f2", vec![7, 9])];
    let refs: Vec<&ChunkData> = chunks.iter().collect();
    let graph = FileCohortGraph::build(&refs);
    assert_eq!(graph.entity_count(), 3);
    // 7 occurs in f1 with 8 and in f2 with 9.
    assert_eq!(graph.neighbors(7), vec![8, 9]);
    assert_eq!(graph.neighbors(9), vec![7]);
    assert!(graph.neighbors(42).is_empty());
    assert!(expand_cohort(&graph, &[1], 0).is_empty());
}

#[test]
fn relation_hops_follow_seeds() {
    let chunks = vec![
        chunk("seed", "f1", vec![1]),
        chunk("near", "f1", vec![2]),
        chunk("far", "f2", vec![2, 3]),
        chunk("none", "f3", vec![]),
    ];
    let refs: Vec<&ChunkData> = chunks.iter().collect();
    let graph = FileCohortGraph::build(&refs);
    let ranked = vec![0usize, 1, 2, 3, 9];
    assert_eq!(relation_seeds(&ranked, &chunks, 1), vec![1]);
    assert_eq!(relation_seeds(&ranked, &chunks, 10), vec![1, 2, 2]);
    let hops = relation_hops(&ranked, &chunks, &graph, 1, 2);
    // The seed chunk gets nothing; chunk 1 (entity 2) is one hop away and
    // chunk 2 is matched by its primary entity 2 as well.
    assert_eq!(hops, vec![(1, 1), (2, 1)]);
    let related = expand_cohort(&graph, &[1], 2);
    assert_eq!(related.get(&3), Some(&2));
    assert!(relation_hops(&[3], &chunks, &graph, 5, 2).is_empty());
    assert_eq!(primary_entity(&chunks[2]), Some(2));
    assert_eq!(primary_entity(&chunks[3]), None);
}

#[test]
fn method_matrix_and_parity() {
    let methods = ordered_methods();
    assert_eq!(methods.len(), 12);
    assert_eq!(methods[0], "emb");
    assert_eq!(methods[5], "bm25+rel");
    assert_eq!(methods[11], "minmax-0.5+both");
    assert!(is_production_parity("emb+sum"));
    assert!(!is_production_parity("bm25"));
    assert_eq!(parity_mark("emb"), "yes");
    assert_eq!(parity_mark("minmax-0.5"), "exploratory");
    assert_eq!(output_dir("/work/cce_e2e", "flask"), "/work/cce_e2e/outputs/benchmark/flask/aggregation_enhance");
}

#[test]
fn plain_markdown_table() {
    let rows = vec![vec!["a".to_string(), "1".to_string()], vec!["b".to_string(), "2".to_string()]];
    assert_eq!(
        md_table(&["method", "mrr"], &rows),
        "| method | mrr |\n|---|---|\n| a | 1 |\n| b | 2 |\n"
    );
}

#[test]
fn expand_cohort_reports_shortest_distances() {
    // 3 shares f1 with seed 1 (one hop) and is two hops from seed 4 via 5.
    let chunks = vec![
        chunk("a", "f1", vec![1, 3]),
        chunk("b", "f2", vec![4, 5]),
        chunk("c", "f3", vec![5, 3]),
    ];
    let refs: Vec<&ChunkData> = chunks.iter().collect();
    let graph = FileCohortGraph::build(&refs);
    let related = expand_cohort(&graph, &[1, 4], 2);
    assert_eq!(related.get(&3), Some(&1));
    assert_eq!(related.get(&5), Some(&1));
    assert_eq!(related.len(), 2);
}

#[test]
fn fused_entity_keys() {
    let c = chunk("x", "f", vec![42, 7]);
    assert_eq!(fused_entity("e:17", &c), Some(17));
    assert_eq!(fused_entity("e:-5", &c), Some(-5));
    assert_eq!(fused_entity("e:+5", &c), Some(5));
    assert_eq!(fused_entity("e:-9223372036854775808", &c), Some(i64::MIN));
    assert_eq!(fused_entity("e:9223372036854775808", &c), Some(42));
    assert_eq!(fused_entity("e:", &c), Some(42));
    assert_eq!(fused_entity("chunk:3", &c), Some(42));
    assert_eq!(fused_entity("e:3x", &chunk("y", "f", vec![])), None);
}
