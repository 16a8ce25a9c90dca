//! Markdown pieces of the aggregation-enhance reports.

use vstd::prelude::*;
use crate::aggregation_enhance::benchmark::{is_production_parity, production_parity};
use crate::text::{joined, join_strings, join_strs, push_str, str_views, string_views};

verus! {

/// Manifest mark of a method: `yes` on the production path, else
/// `exploratory`.
pub fn parity_mark(method: &str) -> (res: String)
    ensures
        res@ == if production_parity(method@) { "yes"@ } else { "exploratory"@ },
{
    if is_production_parity(method) {
        String::from_str("yes")
    } else {
        String::from_str("exploratory")
    }
}

/// `n` copies of `---`.
pub open spec fn dashes(n: nat) -> Seq<Seq<char>> {
    Seq::new(n, |i: int| "---"@)
}

/// Rows of a plain markdown table.
pub open spec fn plain_rows(rows: Seq<Seq<Seq<char>>>) -> Seq<char>
    decreases rows.len(),
{
    if rows.len() == 0 {
        Seq::empty()
    } else {
        plain_rows(rows.drop_last()) + "| "@ + joined(rows.last(), " | "@) + " |\n"@
    }
}

/// A markdown table: header row, `---` separator row, one row per entry.
pub open spec fn plain_table(headers: Seq<Seq<char>>, rows: Seq<Seq<Seq<char>>>) -> Seq<char> {
    "| "@ + joined(headers, " | "@) + " |\n"@ + "|"@ + joined(dashes(headers.len()), "|"@) + "|\n"@ + plain_rows(rows)
}

/// Views of table rows.
pub open spec fn rows_view(rows: Seq<Vec<String>>) -> Seq<Seq<Seq<char>>> {
    rows.map_values(|r: Vec<String>| string_views(r@))
}

/// Renders a markdown table.
pub fn md_table(headers: &[&str], rows: &[Vec<String>]) -> (res: String)
    ensures
        res@ == plain_table(str_views(headers@), rows_view(rows@)),
{
    let mut out = String::from_str("| ");
    let h = join_strs(headers, " | ");
    push_str(&mut out, h.as_str());
    push_str(&mut out, " |\n");
    push_str(&mut out, "|");
    let mut seps: Vec<&str> = Vec::new();
    for k in 0..headers.len()
        invariant
            seps.len() == k,
            forall|j: int| 0 <= j < k ==> #[trigger] seps@[j]@ == "---"@,
    {
        seps.push("---");
    }
    proof {
        assert(str_views(seps@) =~= dashes(headers.len() as nat));
    }
    let s = join_strs(seps.as_slice(), "|");
    push_str(&mut out, s.as_str());
    push_str(&mut out, "|\n");
    let ghost top = out@;
    for r in 0..rows.len()
        invariant
            out@ == top + plain_rows(rows_view(rows@).take(r as int)),
    {
        let line = join_strings(rows[r].as_slice(), " | ");
        push_str(&mut out, "| ");
        push_str(&mut out, line.as_str());
        push_str(&mut out, " |\n");
        proof {
            assert(rows_view(rows@).take(r + 1).drop_last() =~= rows_view(rows@).take(r as int));
            assert(out@ =~= top + plain_rows(rows_view(rows@).take(r + 1)));
        }
    }
    proof {
        assert(rows_view(rows@).take(rows.len() as int) =~= rows_view(rows@));
    }
    out
}

} // verus!
