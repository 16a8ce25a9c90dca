use cce_e2e::bench_data::{
    is_valid_source_range, normalize_path, once_cell_queries, validate_chunk_source_ranges,
    validate_source_ranges_consistency, ChunkData, ChunkSourceRange, EvaluationScope, QueryType,
    RelevanceLevel, TestInfo, TestStatus,
};

fn chunk(id: &str, ranges: Vec<ChunkSourceRange>) -> ChunkData {
    ChunkData {
        chunk_id: id.to_string(),
        entity_name: String::new(),
        file_path: "src/lib.rs".to_string(),
        start_line: 1,
        end_line: 10,
        source_ranges: ranges,
        source_span_kind: String::new(),
        test_info: TestInfo { status: TestStatus::Unknown },
        language: None,
        entity_ids: Vec::new(),
        segment_id: String::new(),
    }
}

#[test]
fn test_normalize_path_preserves_fixture_structure() {
    assert_eq!(normalize_path("src/lib.rs "), "src/lib.rs ");
    assert_eq!(
        normalize_path("crates/ignore/src/walk.rs "),
        "crates/ignore/src/walk.rs "
    );
    assert_eq!(
        normalize_path("fixtures/rust/review/ripgrep/src/search/regex/matcher.rs "),
        "fixtures/rust/review/ripgrep/src/search/regex/matcher.rs "
    );
}

#[test]
fn test_normalize_path_passes_through() {
    assert_eq!(normalize_path("x/y/z "), "x/y/z ");
}

#[test]
fn test_source_range_validity() {
    let valid_range = ChunkSourceRange {
        start_line: 5,
        end_line: 10,
    };
    assert!(is_valid_source_range(&valid_range));

    let invalid_start = ChunkSourceRange {
        start_line: 0,
        end_line: 10,
    };
    assert!(!is_valid_source_range(&invalid_start));

    let inverted = ChunkSourceRange {
        start_line: 10,
        end_line: 5,
    };
    assert!(!is_valid_source_range(&inverted));
}

#[test]
fn normalize_path_turns_backslashes_into_slashes() {
    assert_eq!(normalize_path("src\\search\\mod.rs"), "src/search/mod.rs");
}

#[test]
fn chunk_ranges_validity_covers_every_range() {
    let good = chunk("a", vec![ChunkSourceRange { start_line: 1, end_line: 2 }]);
    let bad = chunk(
        "b",
        vec![
            ChunkSourceRange { start_line: 1, end_line: 2 },
            ChunkSourceRange { start_line: 3, end_line: 0 },
        ],
    );
    assert!(validate_chunk_source_ranges(&good));
    assert!(!validate_chunk_source_ranges(&bad));
}

#[test]
fn consistency_check_reports_each_invalid_chunk() {
    let first = vec![
        chunk("ok", vec![ChunkSourceRange { start_line: 1, end_line: 1 }]),
        chunk("broken", vec![ChunkSourceRange { start_line: 0, end_line: 1 }]),
    ];
    let second = vec![chunk("inverted", vec![ChunkSourceRange { start_line: 4, end_line: 2 }])];
    let errors = validate_source_ranges_consistency(&[first.as_slice(), second.as_slice()], &["full", "raw"]);
    assert_eq!(errors.len(), 2);
    assert_eq!(errors[0].0, 1);
    assert!(errors[0].1.contains("broken"));
    assert_eq!(errors[1].0, 0);
    assert!(errors[1].1.contains("inverted"));
}

#[test]
fn once_cell_queries_cover_all_query_types() {
    let queries = once_cell_queries();
    assert_eq!(queries.len(), 16);
    assert!(queries.iter().any(|q| q.query_type == QueryType::Qualified));
    assert!(queries.iter().any(|q| q.query_type == QueryType::Semantic));
}

#[test]
fn evaluation_scope_and_levels() {
    let scope = EvaluationScope::All;
    for t in scope.included_query_types() {
        assert!(scope.includes_query_type(t));
    }
    assert!(RelevanceLevel::Strong.grade() > RelevanceLevel::Related.grade());
    assert_eq!(RelevanceLevel::Irrelevant.grade(), 0);
}
