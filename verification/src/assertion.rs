//! High-level constraints on an index run and the first one a run breaks.

use vstd::prelude::*;

verus! {

/// Expected high-level index result constraints.
#[derive(Debug, Clone, Default)]
pub struct ExpectedIndexResult {
    /// Minimum number of files expected to be processed.
    pub min_files: Option<usize>,
    /// Minimum number of entities expected to be extracted.
    pub min_entities: Option<usize>,
    /// Minimum number of relations expected to be extracted.
    pub min_relations: Option<usize>,
    /// Minimum number of vectors expected to be stored.
    pub min_vectors: Option<usize>,
    /// Whether the result must contain no errors.
    pub no_errors: bool,
}

/// The counts of an index run that the constraints look at.
#[derive(Debug, Clone, Copy, PartialEq, Eq, Structural)]
pub struct IndexCounts {
    pub total_files: usize,
    pub total_entities: usize,
    pub total_relations: usize,
    pub total_vectors: usize,
    pub failed_files: usize,
    /// Number of errors the run reported.
    pub error_count: usize,
}

/// A broken constraint with the expected and the actual value.
#[derive(Debug, Clone, Copy, PartialEq, Eq, Structural)]
pub enum IndexViolation {
    TooFewFiles { expected: usize, got: usize },
    TooFewEntities { expected: usize, got: usize },
    TooFewRelations { expected: usize, got: usize },
    TooFewVectors { expected: usize, got: usize },
    Errors { count: usize },
    FailedFiles { count: usize },
}

/// The first constraint a run breaks, checked in the order files,
/// entities, relations, vectors, errors, failed files.
pub open spec fn first_violation_spec(counts: IndexCounts, expected: ExpectedIndexResult) -> Option<IndexViolation> {
    if expected.min_files is Some && counts.total_files < expected.min_files->0 {
        Some(IndexViolation::TooFewFiles { expected: expected.min_files->0, got: counts.total_files })
    } else if expected.min_entities is Some && counts.total_entities < expected.min_entities->0 {
        Some(IndexViolation::TooFewEntities { expected: expected.min_entities->0, got: counts.total_entities })
    } else if expected.min_relations is Some && counts.total_relations < expected.min_relations->0 {
        Some(IndexViolation::TooFewRelations { expected: expected.min_relations->0, got: counts.total_relations })
    } else if expected.min_vectors is Some && counts.total_vectors < expected.min_vectors->0 {
        Some(IndexViolation::TooFewVectors { expected: expected.min_vectors->0, got: counts.total_vectors })
    } else if expected.no_errors && counts.error_count != 0 {
        Some(IndexViolation::Errors { count: counts.error_count })
    } else if expected.no_errors && counts.failed_files != 0 {
        Some(IndexViolation::FailedFiles { count: counts.failed_files })
    } else {
        None
    }
}

/// The first constraint of `expected` that `counts` break, if any.
pub fn first_violation(counts: &IndexCounts, expected: &ExpectedIndexResult) -> (res: Option<IndexViolation>)
    ensures
        res == first_violation_spec(*counts, *expected),
        res is None <==> meets_all(*counts, *expected),
{
    proof {
        lemma_first_violation_law(*counts, *expected);
    }
    if let Some(min_files) = expected.min_files {
        if counts.total_files < min_files {
            return Some(IndexViolation::TooFewFiles { expected: min_files, got: counts.total_files });
        }
    }
    if let Some(min_entities) = expected.min_entities {
        if counts.total_entities < min_entities {
            return Some(IndexViolation::TooFewEntities { expected: min_entities, got: counts.total_entities });
        }
    }
    if let Some(min_relations) = expected.min_relations {
        if counts.total_relations < min_relations {
            return Some(IndexViolation::TooFewRelations { expected: min_relations, got: counts.total_relations });
        }
    }
    if let Some(min_vectors) = expected.min_vectors {
        if counts.total_vectors < min_vectors {
            return Some(IndexViolation::TooFewVectors { expected: min_vectors, got: counts.total_vectors });
        }
    }
    if expected.no_errors {
        if counts.error_count != 0 {
            return Some(IndexViolation::Errors { count: counts.error_count });
        }
        if counts.failed_files != 0 {
            return Some(IndexViolation::FailedFiles { count: counts.failed_files });
        }
    }
    None
}

/// Whether `counts` meet every constraint of `expected`: each minimum
/// given is reached, and when no errors are allowed, there are none and no
/// file failed.
pub open spec fn meets_all(counts: IndexCounts, expected: ExpectedIndexResult) -> bool {
    &&& (expected.min_files matches Some(m) ==> counts.total_files >= m)
    &&& (expected.min_entities matches Some(m) ==> counts.total_entities >= m)
    &&& (expected.min_relations matches Some(m) ==> counts.total_relations >= m)
    &&& (expected.min_vectors matches Some(m) ==> counts.total_vectors >= m)
    &&& (expected.no_errors ==> counts.error_count == 0 && counts.failed_files == 0)
}

/// A run is reported as violating exactly when it breaks a constraint, and
/// each reported violation names a constraint that was given and broken,
/// with its expected minimum and the count actually reached; the
/// constraints checked before it all hold.
pub proof fn lemma_first_violation_law(counts: IndexCounts, expected: ExpectedIndexResult)
    ensures
        first_violation_spec(counts, expected) is None <==> meets_all(counts, expected),
        first_violation_spec(counts, expected) matches Some(IndexViolation::TooFewFiles { expected: e, got: g })
            ==> expected.min_files == Some(e) && g == counts.total_files && g < e,
        first_violation_spec(counts, expected) matches Some(IndexViolation::TooFewEntities { expected: e, got: g })
            ==> expected.min_entities == Some(e) && g == counts.total_entities && g < e
                && (expected.min_files matches Some(m) ==> counts.total_files >= m),
        first_violation_spec(counts, expected) matches Some(IndexViolation::TooFewRelations { expected: e, got: g })
            ==> expected.min_relations == Some(e) && g == counts.total_relations && g < e
                && (expected.min_files matches Some(m) ==> counts.total_files >= m)
                && (expected.min_entities matches Some(m) ==> counts.total_entities >= m),
        first_violation_spec(counts, expected) matches Some(IndexViolation::TooFewVectors { expected: e, got: g })
            ==> expected.min_vectors == Some(e) && g == counts.total_vectors && g < e
                && (expected.min_files matches Some(m) ==> counts.total_files >= m)
                && (expected.min_entities matches Some(m) ==> counts.total_entities >= m)
                && (expected.min_relations matches Some(m) ==> counts.total_relations >= m),
        first_violation_spec(counts, expected) matches Some(IndexViolation::Errors { count: c })
            ==> expected.no_errors && c == counts.error_count && c != 0
                && (expected.min_files matches Some(m) ==> counts.total_files >= m)
                && (expected.min_entities matches Some(m) ==> counts.total_entities >= m)
                && (expected.min_relations matches Some(m) ==> counts.total_relations >= m)
                && (expected.min_vectors matches Some(m) ==> counts.total_vectors >= m),
        first_violation_spec(counts, expected) matches Some(IndexViolation::FailedFiles { count: c })
            ==> expected.no_errors && c == counts.failed_files && c != 0 && counts.error_count == 0
                && (expected.min_files matches Some(m) ==> counts.total_files >= m)
                && (expected.min_entities matches Some(m) ==> counts.total_entities >= m)
                && (expected.min_relations matches Some(m) ==> counts.total_relations >= m)
                && (expected.min_vectors matches Some(m) ==> counts.total_vectors >= m),
{
}

} // verus!
