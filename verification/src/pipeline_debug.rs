//! Debug exporter of intermediate pipeline results.

use vstd::prelude::*;

verus! {

/// Debug exporter for pipeline intermediate results. Its renderers work on
/// parser output and are provided outside the verified library.
pub struct PipelineDebugExporter;

} // verus!
