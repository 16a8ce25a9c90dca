//! Relevance judgments of the benchmark projects and the shared evaluation
//! and report pieces.

pub mod evaluate;
pub mod express;
pub mod flask;
pub mod gin;
pub mod jackson_core;
pub mod mediatr;
pub mod once_cell;
pub mod report;
pub mod ripgrep;
pub mod spring_boot;
