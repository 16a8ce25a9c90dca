use cce_e2e::bench_data::{QueryType, RelevanceLevel};
use cce_e2e::judgments::evaluate::{
    document_group_id, select_chunk_indices, BenchmarkPaths, EvalVariant, DEFAULT_TOP_K,
    TOP_K_VALUES,
};
use cce_e2e::judgments::express::express_relevance_judgments;
use cce_e2e::judgments::flask::flask_relevance_judgments;
use cce_e2e::judgments::gin::gin_relevance_judgments;
use cce_e2e::judgments::jackson_core::jackson_core_relevance_judgments;
use cce_e2e::judgments::mediatr::mediatr_relevance_judgments;
use cce_e2e::judgments::once_cell::once_cell_relevance_judgments;
use cce_e2e::judgments::report::{aligned_md_table, normalize_path};
use cce_e2e::judgments::ripgrep::ripgrep_relevance_judgments;
use cce_e2e::judgments::spring_boot::spring_boot_relevance_judgments;

#[test]
fn judgment_tables_are_well_formed() {
    let tables = vec![
        express_relevance_judgments(),
        flask_relevance_judgments(),
        gin_relevance_judgments(),
        jackson_core_relevance_judgments(),
        mediatr_relevance_judgments(),
        once_cell_relevance_judgments(),
        ripgrep_relevance_judgments(),
        spring_boot_relevance_judgments(),
    ];
    let sizes: Vec<usize> = tables.iter().map(|t| t.len()).collect();
    assert_eq!(sizes, vec![45, 45, 45, 45, 45, 39, 45, 18]);
    for table in &tables {
        for j in table {
            assert!(!j.relevant_ranges.is_empty());
            assert_eq!(j.query_type == QueryType::Fuzzy, j.fuzzy_subtype.is_some());
            for (range, level) in &j.relevant_ranges {
                assert!(1 <= range.start_line && range.start_line <= range.end_line);
                assert_ne!(*level, RelevanceLevel::Irrelevant);
            }
        }
    }
    let express = express_relevance_judgments();
    assert_eq!(express[0].id, "G1Q1");
    assert_eq!(express[0].relevant_ranges[0].0.file, "lib/application.js");
    assert_eq!(express[0].relevant_ranges[0].0.start_line, 190);
}

#[test]
fn document_group_ids() {
    assert_eq!(document_group_id("file_doc_b.rs_emb_0"), "file_doc_b.rs");
    assert_eq!(document_group_id("a_bm25_x_bm25_1"), "a_bm25_x");
    assert_eq!(document_group_id("a_emb_1_bm25_2"), "a_emb_1");
    assert_eq!(document_group_id("plain"), "plain");
}

#[test]
fn variants_and_selection() {
    assert_eq!(EvalVariant::All.label(), "all");
    assert_eq!(EvalVariant::NoTest.label(), "no_test");
    assert!(EvalVariant::NoTest.filter_test_chunks());
    let flags = [false, true, false, true];
    assert_eq!(select_chunk_indices(&flags, EvalVariant::All), vec![0, 1, 2, 3]);
    assert_eq!(select_chunk_indices(&flags, EvalVariant::NoTest), vec![0, 2]);
    assert_eq!(TOP_K_VALUES, [5, 10, 20, 30, 50]);
    assert_eq!(DEFAULT_TOP_K, 5);
}

#[test]
fn benchmark_paths() {
    let paths = BenchmarkPaths::new("/work/cce_e2e", "flask");
    assert_eq!(paths.output_dir(), "/work/cce_e2e/outputs/benchmark/flask");
    assert_eq!(
        paths.data_dir("full_pipeline"),
        "/work/cce_e2e/data/benchmark/full_pipeline/flask/bge-m3/bench_data.rkyv"
    );
}

#[test]
fn report_path_normalization() {
    assert_eq!(normalize_path("/repo/e2e/outputs/x.md", "/repo/e2e"), "outputs/x.md");
    assert_eq!(normalize_path("C:\\repo\\e2e\\a.md", "C:\\repo\\e2e"), "a.md");
    assert_eq!(normalize_path("/other/a.md", "/repo/e2e"), "/other/a.md");
    assert_eq!(normalize_path("/repo/e2e", "/repo/e2e"), "");
}

#[test]
fn aligned_table_pads_columns() {
    let rows = vec![
        vec!["flask".to_string(), "0.5".to_string()],
        vec!["ripgrep".to_string(), "1".to_string()],
    ];
    let table = aligned_md_table(&["baseline", "mrr"], &rows);
    assert_eq!(
        table,
        "| baseline | mrr |\n|----------|-----|\n| flask    | 0.5 |\n| ripgrep  | 1   |\n"
    );
}

fn count_type(js: &[cce_e2e::bench_data::RelevanceJudgment], t: QueryType) -> usize {
    js.iter().filter(|j| j.query_type == t).count()
}

#[test]
fn ripgrep_and_spring_boot_table_shapes() {
    let rg = ripgrep_relevance_judgments();
    assert_eq!(count_type(&rg, QueryType::Qualified), 10);
    assert_eq!(count_type(&rg, QueryType::Semantic), 20);
    assert_eq!(count_type(&rg, QueryType::Fuzzy), 15);
    let mut ids: Vec<&str> = rg.iter().map(|j| j.id.as_str()).collect();
    ids.sort();
    ids.dedup();
    assert_eq!(ids.len(), 45);
    for j in rg.iter().filter(|j| j.query_type == QueryType::Qualified) {
        assert!(j.relevant_ranges.iter().all(|(_, l)| *l == RelevanceLevel::Strong));
    }
    assert_eq!(rg[0].id, "G1Q1");
    assert_eq!(rg[0].relevant_ranges[0].0.file, "crates/regex/src/matcher.rs");
    assert_eq!(rg[0].relevant_ranges[0].0.start_line, 409);

    let sb = spring_boot_relevance_judgments();
    assert_eq!(count_type(&sb, QueryType::Qualified), 7);
    assert_eq!(count_type(&sb, QueryType::Semantic), 6);
    assert_eq!(count_type(&sb, QueryType::Fuzzy), 5);
}
