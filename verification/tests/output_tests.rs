use cce_e2e::output_serializer::{index_result_markdown, IndexResultReport};
use cce_e2e::output_manager::{OutputBuilder, OutputCategory, OutputConfig, OutputManager};
use cce_e2e::output_reporter::{OutputReporter, ReportMetadata};
use cce_e2e::output_serializer::{OutputFormat, OutputSerializer};

#[test]
fn test_output_category_dir_name() {
    assert_eq!(OutputCategory::Index.dir_name(), "index");
    assert_eq!(OutputCategory::Query.dir_name(), "query");
    assert_eq!(OutputCategory::Scenarios.dir_name(), "scenarios");
    assert_eq!(OutputCategory::HotUpdate.dir_name(), "hot_update");
}

#[test]
fn test_output_config_default() {
    let config = OutputConfig::default_under("/work/cce_e2e");
    assert!(config.base_dir.ends_with("outputs"));
    assert_eq!(config.base_dir, "/work/cce_e2e/outputs");
    assert!(!config.use_timestamp);
    assert!(config.overwrite);
}

#[test]
fn test_output_manager_output_dir() {
    let manager = OutputManager::builder("/work/cce_e2e")
        .category(OutputCategory::Query)
        .scenario("bm25_search")
        .build();

    let dir = manager.output_dir();
    assert!(dir.ends_with("outputs/query/bm25_search"));
    assert_eq!(dir, "/work/cce_e2e/outputs/query/bm25_search");
}

#[test]
fn test_output_manager_output_dir_with_language() {
    let manager = OutputManager::builder("/work/cce_e2e")
        .category(OutputCategory::Scenarios)
        .language("rust")
        .scenario("presentation/once_cell")
        .build();

    let dir = manager.output_dir();
    assert!(dir.ends_with("outputs/scenarios/rust/presentation/once_cell"));
}

#[test]
fn output_dir_layout_and_paths() {
    let manager = OutputManager::new("/work/cce_e2e");
    assert_eq!(manager.output_dir(), "/work/cce_e2e/outputs");
    let manager = OutputManager::new("/work/cce_e2e").scenario("s").language("go");
    assert_eq!(manager.output_dir(), "/work/cce_e2e/outputs/go/s");
    assert_eq!(manager.output_path("r.json"), "/work/cce_e2e/outputs/go/s/r.json");
    let absolute = OutputBuilder::new("/work/cce_e2e").scenario("/tmp/abs").build();
    assert_eq!(absolute.output_dir(), "/tmp/abs");
    assert_eq!(manager.output_dir_at("20240101_000000"), "/work/cce_e2e/outputs/go/s");
    assert!(manager.overwrite());
}

#[test]
fn test_output_format_extension() {
    assert_eq!(OutputFormat::Json.extension(), "json");
    assert_eq!(OutputFormat::Markdown.extension(), "md");
}

#[test]
fn serializer_formats() {
    assert_eq!(OutputSerializer::json().format(), OutputFormat::Json);
    assert_eq!(OutputSerializer::markdown().format(), OutputFormat::Markdown);
    assert_eq!(OutputSerializer::new(OutputFormat::Markdown).format(), OutputFormat::Markdown);
    assert_eq!(OutputSerializer::default().format(), OutputFormat::default());
}

#[test]
fn test_report_metadata_builder() {
    let metadata = ReportMetadata::new()
        .description("Test description")
        .category("index")
        .tag("rust")
        .tag("e2e")
        .extra("key", "value");

    assert_eq!(metadata.description, Some("Test description".to_string()));
    assert_eq!(metadata.category, Some("index".to_string()));
    assert_eq!(metadata.tags, vec!["rust", "e2e"]);
    assert_eq!(metadata.extra.get("key"), Some(&"value".to_string()));
}

#[test]
fn metadata_extra_keeps_the_last_value_per_key() {
    let metadata = ReportMetadata::new().extra("k", "1").extra("k", "2").extra("j", "3");
    assert_eq!(metadata.extra.len(), 2);
    assert_eq!(metadata.extra.get("k"), Some(&"2".to_string()));
}

#[test]
fn reporter_keeps_metadata_and_format() {
    let reporter = OutputReporter::new(OutputManager::new("/work/cce_e2e"), OutputSerializer::markdown())
        .with_metadata(ReportMetadata::new().tag("t"));
    assert_eq!(reporter.format(), OutputFormat::Markdown);
    assert_eq!(reporter.metadata().tags, vec!["t"]);
    assert_eq!(OutputReporter::default_under("/work/cce_e2e").format(), OutputFormat::Json);
}

#[test]
fn index_result_markdown_layout() {
    let report = IndexResultReport {
        test_name: "test_index".to_string(),
        timestamp: "2024-01-01T00:00:00Z".to_string(),
        total_files: 10,
        indexed_files: 9,
        failed_files: 1,
        success_rate: "90.0".to_string(),
        elapsed_ms: 100,
        total_entities: 100,
        total_relations: 50,
        total_vectors: 100,
        total_tokens: 1000,
        errors: vec!["error1".to_string()],
        metadata: vec![("tag".to_string(), "rust".to_string())],
    };
    let md = index_result_markdown(&report);
    assert!(md.contains("# Index Result: test_index"));
    assert!(md.contains("**Total Files:** 10"));
    assert!(md.contains("- **Success Rate:** 90.0%\n"));
    assert!(md.contains("## Errors\n\n1. error1\n\n"));
    assert!(md.ends_with("## Metadata\n\n- **tag:** rust\n\n"));
}

#[test]
fn output_dir_ignores_setter_order_and_construction() {
    let a = OutputManager::new("/r")
        .scenario("s")
        .category(OutputCategory::Query)
        .language("go");
    let b = OutputManager::builder("/r")
        .language("go")
        .category(OutputCategory::Query)
        .scenario("s")
        .build();
    assert_eq!(a.output_dir(), b.output_dir());
    assert_eq!(a.output_dir(), "/r/outputs/query/go/s");
    assert_eq!(a.output_dir(), a.output_dir());
}
