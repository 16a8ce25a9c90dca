use cce_e2e::assembly_review::{assembly_failed_reason, render_assembled_block, render_fallback_block, AssemblyMeta};
use cce_e2e::assembly_review::{
    display_name, entity_ids_list, escape_pipes, hit_content_from_chunk, hit_content_from_source,
    mode_label, render_hit_header, render_index_header, render_index_row, render_query_header,
    sanitize_query_id, source_window, CallEdge, CallGraph, ContentMode, RecallMode,
};
use cce_e2e::bench_data::{ChunkData, TestInfo, TestStatus};

fn chunk(id: &str, name: &str, entities: Vec<i64>) -> ChunkData {
    ChunkData {
        chunk_id: id.to_string(),
        entity_name: name.to_string(),
        file_path: "src/lib.rs".to_string(),
        start_line: 3,
        end_line: 7,
        source_ranges: Vec::new(),
        source_span_kind: String::new(),
        test_info: TestInfo { status: TestStatus::Unknown },
        language: None,
        entity_ids: entities,
        segment_id: String::new(),
    }
}

fn edge(caller: i64, callee: i64) -> CallEdge {
    CallEdge {
        caller_entity_id: caller,
        callee_entity_id: callee,
    }
}

#[test]
fn call_graph_primary_entity_wins() {
    let chunks = vec![chunk("c0", "a", vec![5, 6]), chunk("c1", "b", vec![6]), chunk("c2", "c", vec![7, 5])];
    let edges = vec![edge(6, 5), edge(6, 7), edge(5, 6)];
    let graph = CallGraph::build(&edges, &chunks);
    let top = vec!["c0".to_string()];
    // 6 is the primary entity of c1 although c0 lists it first.
    assert_eq!(graph.neighbor_chunk(&chunks, 6, &[]), Some(1));
    // 5 is the primary entity of c0 (c2 lists it later).
    assert_eq!(graph.neighbor_chunk(&chunks, 5, &[]), Some(0));
    assert_eq!(graph.neighbor_chunk(&chunks, 5, &top), None);
    assert_eq!(graph.neighbor_chunk(&chunks, 99, &[]), None);
    let (forward, backward) = graph.expansion_targets(&edges, &chunks[1]);
    assert_eq!(forward, vec![5, 7]);
    assert_eq!(backward, vec![5]);
    let (forward, backward) = graph.expansion_targets(&edges, &chunk("x", "", vec![]));
    assert!(forward.is_empty() && backward.is_empty());
}

#[test]
fn labels_and_windows() {
    assert_eq!(ContentMode::Chunk.label(), "chunk");
    assert_eq!(ContentMode::Source.label(), "source");
    assert_eq!(RecallMode::Emb.label(), "emb");
    assert_eq!(mode_label(RecallMode::Emb, 5), "emb_top5");
    assert_eq!(source_window(0, 9, 5), Some((1, 5)));
    assert_eq!(source_window(7, 9, 5), None);
    assert_eq!(source_window(2, 3, 5), Some((2, 3)));
}

#[test]
fn hit_contents() {
    let c = chunk("c0", "", vec![1]);
    let hit = hit_content_from_chunk(&c, "a\nb\n").expect("two lines");
    assert_eq!((hit.start_line, hit.end_line), (1, 2));
    assert_eq!(hit.assembler_path, "src/lib.rs");
    assert_eq!(hit_content_from_chunk(&c, "").unwrap_err(), "chunk text is empty");
    let source = "1\n2\n3\n4\n5\n6\n7\n8\n".to_string();
    let hit = hit_content_from_source(&c, source, "C:\\fx\\src\\lib.rs").expect("in range");
    assert_eq!((hit.start_line, hit.end_line), (3, 7));
    assert_eq!(hit.assembler_path, "C:/fx/src/lib.rs");
    let err = hit_content_from_source(&c, "1\n2\n".to_string(), "/fx/src/lib.rs").unwrap_err();
    assert_eq!(err, "chunk range 3-7 outside src/lib.rs (2 lines)");
    let err = hit_content_from_source(&c, String::new(), "/fx/src/lib.rs").unwrap_err();
    assert_eq!(err, "source file src/lib.rs is empty");
}

#[test]
fn markdown_rendering() {
    let c = chunk("c0", "", vec![-3, 12]);
    assert_eq!(display_name(&c), "c0");
    assert_eq!(display_name(&chunk("c0", "Parser::new", vec![])), "Parser::new");
    assert_eq!(entity_ids_list(&c), "-3, 12");
    assert_eq!(
        render_hit_header(0, &c, "0.9000"),
        "### 1. c0  score=0.9000\n\n- file: `src/lib.rs:3-7`\n- entity_ids: [-3, 12], segment_id: (none)\n\n"
    );
    assert_eq!(
        render_query_header("Q1", "text", "qualified", "emb_top5", "chunk"),
        "# Query: Q1\n\n- **Query**: text\n- **Type**: qualified\n- **Mode**: emb_top5\n- **Content**: chunk\n\n## Results\n\n"
    );
    assert_eq!(sanitize_query_id("FZ-G1Q7/abbrev expand"), "FZ-G1Q7_abbrev_expand");
    assert_eq!(escape_pipes("a|b"), "a\\|b");
    assert_eq!(
        render_index_header("flask", "emb_top5", "chunk", true),
        "# Assembly review: flask (full_pipeline, emb_top5, content=chunk, expansion=on)\n\n| query_id | type | query | top-1 hit |\n|---|---|---|---|\n"
    );
    assert_eq!(
        render_index_row("Q1", "fuzzy", "x|y", None),
        "| Q1 | fuzzy | x\\|y | (no hits) |\n"
    );
}

#[test]
fn assembly_blocks() {
    let meta = AssemblyMeta {
        expanded: false,
        expanded_nodes: 0,
        forward_nodes: 0,
        backward_nodes: 0,
        file_count: 1,
        original_length: 12,
        assembled_length: 12,
        truncated: false,
    };
    assert_eq!(
        render_assembled_block(&meta, "fn f() {}"),
        "- assembly: expanded=false, expanded_nodes=0 (fwd=0, bwd=0), files=1, original_length=12, assembled_length=12, truncated=false\n> not expanded \u{2014} content identical to raw.\n\nfn f() {}\n\n"
    );
    let reason = assembly_failed_reason("timeout");
    assert_eq!(
        render_fallback_block(&reason, "raw"),
        "> assembly failed (timeout); content identical to raw.\n\nraw\n\n"
    );
}
