//! Shared support library for end-to-end retrieval benchmarks: fixture
//! specifications, judgment data, offline ranking helpers, report layout and
//! the byte-level pieces of the mock HTTP services.

pub mod embedding;
pub mod text;
pub mod paths;
pub mod output_manager;
pub mod output_serializer;
pub mod output_reporter;
pub mod fixture;
pub mod bench_data;
pub mod bench_gen;
pub mod bm25_parameter_benchmark;
pub mod ordered_groups;
pub mod aggregation_enhance;
pub mod infra;
pub mod http;
pub mod assertion;
pub mod pipeline_debug;
pub mod nl_text_exporter;
pub mod display_sections;
pub mod direct_chunker;
pub mod judgments;
pub mod assembly_review;
pub mod mock_qdrant;
pub mod mock_chat_server;
pub mod mock_embedding_server;
