//! Output formats of test results.

use vstd::prelude::*;
use crate::text::{decimal_chars, push_str, push_u64, push_usize};

verus! {

/// Output format.
#[derive(Debug, Clone, Copy, PartialEq, Eq, Default, Structural)]
pub enum OutputFormat {
    /// JSON format
    #[default]
    Json,
    /// Markdown format (human-readable)
    Markdown,
}

impl OutputFormat {
    /// File extension for this format.
    pub fn extension(&self) -> (res: &'static str)
        ensures
            res@ == match self {
                OutputFormat::Json => "json"@,
                OutputFormat::Markdown => "md"@,
            },
    {
        match self {
            OutputFormat::Json => "json",
            OutputFormat::Markdown => "md",
        }
    }
}

/// Serializer of test results in one format.
pub struct OutputSerializer {
    format: OutputFormat,
}

impl OutputSerializer {
    pub closed spec fn format_spec(&self) -> OutputFormat {
        self.format
    }

    /// A serializer for `format`.
    pub fn new(format: OutputFormat) -> (res: Self)
        ensures
            res.format_spec() == format,
    {
        OutputSerializer { format }
    }

    /// A JSON serializer.
    pub fn json() -> (res: Self)
        ensures
            res.format_spec() == OutputFormat::Json,
    {
        Self::new(OutputFormat::Json)
    }

    /// A Markdown serializer.
    pub fn markdown() -> (res: Self)
        ensures
            res.format_spec() == OutputFormat::Markdown,
    {
        Self::new(OutputFormat::Markdown)
    }

    /// The current format.
    pub fn format(&self) -> (res: OutputFormat)
        ensures
            res == self.format_spec(),
    {
        self.format
    }
}

impl Default for OutputSerializer {
    fn default() -> (res: Self)
        ensures
            res.format_spec() == OutputFormat::Json,
    {
        Self::json()
    }
}

/// The plain values of an index result that its Markdown report shows;
/// the success rate is already formatted (one decimal).
pub struct IndexResultReport {
    pub test_name: String,
    pub timestamp: String,
    pub total_files: usize,
    pub indexed_files: usize,
    pub failed_files: usize,
    pub success_rate: String,
    pub elapsed_ms: u64,
    pub total_entities: usize,
    pub total_relations: usize,
    pub total_vectors: usize,
    pub total_tokens: u64,
    pub errors: Vec<String>,
    /// Metadata entries in the order they are listed.
    pub metadata: Vec<(String, String)>,
}

/// `N. error` lines, numbered from 1.
pub open spec fn error_lines(es: Seq<String>) -> Seq<char>
    decreases es.len(),
{
    if es.len() == 0 {
        Seq::empty()
    } else {
        error_lines(es.drop_last()) + decimal_chars(es.len()) + ". "@ + es.last()@ + "\n"@
    }
}

/// `- **key:** value` lines.
pub open spec fn metadata_lines(ms: Seq<(String, String)>) -> Seq<char>
    decreases ms.len(),
{
    if ms.len() == 0 {
        Seq::empty()
    } else {
        metadata_lines(ms.drop_last()) + "- **"@ + ms.last().0@ + ":** "@ + ms.last().1@ + "\n"@
    }
}

/// The Markdown report of an index result: title, timestamp, summary and
/// statistics, then the errors and the metadata when there are any.
pub open spec fn index_markdown_spec(r: IndexResultReport) -> Seq<char> {
    "# Index Result: "@ + r.test_name@ + "\n\n"@
        + "**Timestamp:** "@ + r.timestamp@ + "\n\n"@
        + "## Summary\n\n"@
        + "- **Total Files:** "@ + decimal_chars(r.total_files as nat) + "\n"@
        + "- **Indexed Files:** "@ + decimal_chars(r.indexed_files as nat) + "\n"@
        + "- **Failed Files:** "@ + decimal_chars(r.failed_files as nat) + "\n"@
        + "- **Success Rate:** "@ + r.success_rate@ + "%\n"@
        + "- **Elapsed Time:** "@ + decimal_chars(r.elapsed_ms as nat) + "ms\n\n"@
        + "## Statistics\n\n"@
        + "- **Total Entities:** "@ + decimal_chars(r.total_entities as nat) + "\n"@
        + "- **Total Relations:** "@ + decimal_chars(r.total_relations as nat) + "\n"@
        + "- **Total Vectors:** "@ + decimal_chars(r.total_vectors as nat) + "\n"@
        + "- **Total Tokens:** "@ + decimal_chars(r.total_tokens as nat) + "\n\n"@
        + (if r.errors@.len() == 0 { Seq::empty() } else { "## Errors\n\n"@ + error_lines(r.errors@) + "\n"@ })
        + (if r.metadata@.len() == 0 { Seq::empty() } else { "## Metadata\n\n"@ + metadata_lines(r.metadata@) + "\n"@ })
}

/// Renders the Markdown report of an index result.
pub fn index_result_markdown(r: &IndexResultReport) -> (res: String)
    ensures
        res@ == index_markdown_spec(*r),
{
    let mut out = String::new();
    push_str(&mut out, "# Index Result: ");
    push_str(&mut out, r.test_name.as_str());
    push_str(&mut out, "\n\n");
    push_str(&mut out, "**Timestamp:** ");
    push_str(&mut out, r.timestamp.as_str());
    push_str(&mut out, "\n\n");
    push_str(&mut out, "## Summary\n\n");
    push_str(&mut out, "- **Total Files:** ");
    push_usize(&mut out, r.total_files);
    push_str(&mut out, "\n");
    push_str(&mut out, "- **Indexed Files:** ");
    push_usize(&mut out, r.indexed_files);
    push_str(&mut out, "\n");
    push_str(&mut out, "- **Failed Files:** ");
    push_usize(&mut out, r.failed_files);
    push_str(&mut out, "\n");
    push_str(&mut out, "- **Success Rate:** ");
    push_str(&mut out, r.success_rate.as_str());
    push_str(&mut out, "%\n");
    push_str(&mut out, "- **Elapsed Time:** ");
    push_u64(&mut out, r.elapsed_ms);
    push_str(&mut out, "ms\n\n");
    push_str(&mut out, "## Statistics\n\n");
    push_str(&mut out, "- **Total Entities:** ");
    push_usize(&mut out, r.total_entities);
    push_str(&mut out, "\n");
    push_str(&mut out, "- **Total Relations:** ");
    push_usize(&mut out, r.total_relations);
    push_str(&mut out, "\n");
    push_str(&mut out, "- **Total Vectors:** ");
    push_usize(&mut out, r.total_vectors);
    push_str(&mut out, "\n");
    push_str(&mut out, "- **Total Tokens:** ");
    push_u64(&mut out, r.total_tokens);
    push_str(&mut out, "\n\n");
    let ghost head = out@;
    if r.errors.len() > 0 {
        push_str(&mut out, "## Errors\n\n");
        let ghost start = out@;
        for i in 0..r.errors.len()
            invariant
                out@ == start + error_lines(r.errors@.take(i as int)),
        {
            proof {
                assert(r.errors@.take(i + 1).drop_last() =~= r.errors@.take(i as int));
            }
            push_usize(&mut out, i + 1);
            push_str(&mut out, ". ");
            push_str(&mut out, r.errors[i].as_str());
            push_str(&mut out, "\n");
            proof {
                assert(out@ =~= start + error_lines(r.errors@.take(i + 1)));
            }
        }
        proof {
            assert(r.errors@.take(r.errors.len() as int) =~= r.errors@);
        }
        push_str(&mut out, "\n");
    }
    let ghost mid = out@;
    if r.metadata.len() > 0 {
        push_str(&mut out, "## Metadata\n\n");
        let ghost start = out@;
        for i in 0..r.metadata.len()
            invariant
                out@ == start + metadata_lines(r.metadata@.take(i as int)),
        {
            proof {
                assert(r.metadata@.take(i + 1).drop_last() =~= r.metadata@.take(i as int));
            }
            push_str(&mut out, "- **");
            push_str(&mut out, r.metadata[i].0.as_str());
            push_str(&mut out, ":** ");
            push_str(&mut out, r.metadata[i].1.as_str());
            push_str(&mut out, "\n");
            proof {
                assert(out@ =~= start + metadata_lines(r.metadata@.take(i + 1)));
            }
        }
        proof {
            assert(r.metadata@.take(r.metadata.len() as int) =~= r.metadata@);
        }
        push_str(&mut out, "\n");
    }
    proof {
        assert(out@ =~= index_markdown_spec(*r));
    }
    out
}

} // verus!
