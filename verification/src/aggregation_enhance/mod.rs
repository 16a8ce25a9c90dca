//! Aggregation-enhance benchmark support: the offline relation signal, the
//! method matrix of the benchmark and its report tables.

pub mod benchmark;
pub mod enhance;
pub mod report;
