use cce_e2e::assertion::{first_violation, ExpectedIndexResult, IndexCounts, IndexViolation};
use cce_e2e::bench_data::{ChunkData, TestInfo, TestStatus};
use cce_e2e::bench_gen::{
    data_dir, first_duplicate_chunk, fixture_extension, fixture_source_path, include_pattern,
    normalize_file_path,
};
use cce_e2e::bm25_parameter_benchmark::{
    markdown_cell, markdown_table, stage_one_parameter_sets, stage_two_parameter_sets,
    ParameterSetKey, Phase, parameter_set_groups, query_type_groups,
};
use cce_e2e::embedding::EmbeddingConfig;
use cce_e2e::fixture::{FixtureCategory, FixtureSpec};
use cce_e2e::nl_text_exporter::{ChunkPath, NlTextDocumentExporter};
use cce_e2e::paths::path_join;

fn chunk(id: &str, file: &str) -> ChunkData {
    ChunkData {
        chunk_id: id.to_string(),
        entity_name: String::new(),
        file_path: file.to_string(),
        start_line: 1,
        end_line: 1,
        source_ranges: Vec::new(),
        source_span_kind: String::new(),
        test_info: TestInfo { status: TestStatus::Unknown },
        language: None,
        entity_ids: Vec::new(),
        segment_id: String::new(),
    }
}

#[test]
fn bench_gen_paths() {
    assert_eq!(data_dir("/work/cce_e2e", "full_pipeline", "flask"), "/work/cce_e2e/data/benchmark/full_pipeline/flask/bge-m3");
    assert_eq!(fixture_source_path("/work/cce_e2e", FixtureSpec::rust_basic()), "/work/cce_e2e/fixtures/rust/basic");
    assert_eq!(
        fixture_source_path("/work/cce_e2e", FixtureSpec::new(FixtureCategory::Documents, "")),
        "/work/cce_e2e/fixtures/documents"
    );
    assert_eq!(fixture_extension(FixtureCategory::Kotlin), Some("kt"));
    assert_eq!(fixture_extension(FixtureCategory::Lua), None);
    assert_eq!(include_pattern(FixtureCategory::Rust), Some("*.rs"));
    assert_eq!(include_pattern(FixtureCategory::MultiLanguage), Some("*"));
    assert_eq!(normalize_file_path("a\\b.rs"), "a/b.rs");
}

#[test]
fn duplicate_chunks_are_found() {
    let chunks = vec![chunk("1", "a.rs"), chunk("1", "b.rs"), chunk("2", "a.rs"), chunk("1", "b.rs")];
    assert_eq!(first_duplicate_chunk(&chunks), Some(3));
    assert_eq!(first_duplicate_chunk(&chunks[..3]), None);
}

#[test]
fn parameter_grid() {
    let stage_one = stage_one_parameter_sets();
    assert_eq!(stage_one.len(), 9);
    assert_eq!(stage_one[0].display_name(), "k1_1.20_b_0.40_t_4.00_kw_2.00_c_1.00");
    assert_eq!(stage_one[8].display_name(), "k1_1.80_b_0.75_t_4.00_kw_2.00_c_1.00");
    let evaluated = vec![ParameterSetKey {
        k1_pct: 150,
        b_pct: 60,
        title_w_pct: 400,
        keywords_w_pct: 200,
        content_w_pct: 100,
    }];
    let stage_two = stage_two_parameter_sets(&[(150, 60), (120, 40)], &evaluated);
    assert_eq!(stage_two.len(), 17);
    assert_eq!(stage_two[0].display_name(), "k1_1.50_b_0.60_t_2.00_kw_1.00_c_1.00");
    assert!(!stage_two.contains(&evaluated[0]));
    assert_eq!(Phase::Algorithm.as_str(), "algorithm");
    assert_eq!(Phase::FieldWeights.as_str(), "field_weights");
}

#[test]
fn sweep_markdown() {
    assert_eq!(markdown_cell("a|b\nc"), "a\\|b c");
    let rows = vec![vec!["x".to_string(), "1".to_string()]];
    assert_eq!(markdown_table(&["set", "mrr"], &rows), "| set | mrr |\n|---|---|\n| x | 1 |\n");
}

#[test]
fn nl_text_exporter_dirs() {
    let both = NlTextDocumentExporter::new("/p");
    assert_eq!(both.output_dir(), "/p/.cce/nl_text_docs");
    assert_eq!(NlTextDocumentExporter::bm25_only("/p").output_dir(), "/p/.cce/nl_text_docs_bm25");
    let emb = NlTextDocumentExporter::embedding_only("/p/");
    assert_eq!(emb.output_dir(), "/p/.cce/nl_text_docs_emb");
    assert_eq!(emb.default_filter_path(), Some(ChunkPath::Embedding));
    assert_eq!(both.default_filter_path(), None);
    assert!(both.is_exporting_bm25() && both.is_exporting_embedding());
    assert_eq!(both.bm25_output_dir(), "/p/.cce/nl_text_docs_bm25");
    assert_eq!(both.embedding_output_dir(), "/p/.cce/nl_text_docs_emb");
    assert_eq!(emb.relative_source_path("/p/src/lib.rs"), "src/lib.rs");
    assert_eq!(emb.relative_source_path("//?//p/src/lib.rs"), "src/lib.rs");
    assert_eq!(emb.relative_source_path("/q/src/lib.rs"), "/q/src/lib.rs");
    assert_eq!(emb.relative_source_path("/p"), "/p");
}

#[test]
fn index_constraints() {
    let counts = IndexCounts {
        total_files: 3,
        total_entities: 10,
        total_relations: 0,
        total_vectors: 5,
        failed_files: 1,
        error_count: 0,
    };
    let mut expected = ExpectedIndexResult::default();
    assert_eq!(first_violation(&counts, &expected), None);
    expected.no_errors = true;
    assert_eq!(first_violation(&counts, &expected), Some(IndexViolation::FailedFiles { count: 1 }));
    expected.min_entities = Some(11);
    assert_eq!(
        first_violation(&counts, &expected),
        Some(IndexViolation::TooFewEntities { expected: 11, got: 10 })
    );
}

#[test]
fn join_and_mock_config() {
    assert_eq!(path_join("a", "b"), "a/b");
    assert_eq!(path_join("a/", "b"), "a/b");
    assert_eq!(path_join("", "b"), "b");
    assert_eq!(path_join("a", "/b"), "/b");
    let config = EmbeddingConfig::mock();
    assert!(config.is_mock());
    assert_eq!(config.dimension(), 384);
}

fn pkey(k1_pct: u16, b_pct: u16) -> ParameterSetKey {
    ParameterSetKey { k1_pct, b_pct, title_w_pct: 400, keywords_w_pct: 200, content_w_pct: 100 }
}

#[test]
fn observations_group_in_parameter_order() {
    let keys = vec![pkey(120, 75), pkey(90, 40), pkey(120, 75), pkey(90, 75), pkey(90, 40)];
    assert_eq!(parameter_set_groups(&keys), vec![vec![1, 4], vec![3], vec![0, 2]]);

    let pairs = vec![
        (pkey(120, 75), "symbol".to_string()),
        (pkey(90, 40), "semantic".to_string()),
        (pkey(120, 75), "semantic".to_string()),
        (pkey(120, 75), "symbol".to_string()),
        (pkey(90, 40), "Semantic".to_string()),
    ];
    assert_eq!(query_type_groups(&pairs), vec![vec![4], vec![1], vec![2], vec![0, 3]]);
    assert!(parameter_set_groups(&[]).is_empty());
}
