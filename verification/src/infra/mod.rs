//! Offline BM25 infrastructure: term statistics and the scoring helpers
//! that do not depend on floating point.

pub mod term_index;
pub mod scorer;
