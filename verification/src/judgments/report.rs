//! Report formatting shared by the benchmark runners: path normalization and
//! markdown tables with auto-sized columns.

use vstd::prelude::*;
use vstd::string::StringSliceAdditionalSpecFns;
use vstd::utf8::encode_utf8;
use crate::bench_data::{forward_slashes, normalize_path as forward_slash_path};
use crate::text::{chars_of, push_char, push_str};

verus! {

/// `path` with backslashes turned into slashes and, when it lies under
/// `manifest_dir` (normalized the same way), that prefix and the slashes
/// after it removed.
pub open spec fn normalized_under(path: Seq<char>, manifest_dir: Seq<char>) -> Seq<char> {
    let p = forward_slashes(path);
    let root = forward_slashes(manifest_dir);
    if root.len() <= p.len() && p.take(root.len() as int) == root {
        trim_leading_slashes(p.skip(root.len() as int))
    } else {
        p
    }
}

/// `s` without its leading slashes.
pub open spec fn trim_leading_slashes(s: Seq<char>) -> Seq<char>
    decreases s.len(),
{
    if s.len() > 0 && s[0] == '/' {
        trim_leading_slashes(s.drop_first())
    } else {
        s
    }
}

/// Normalizes a path for consistent file references: forward slashes, and
/// relative to the crate directory `manifest_dir` when it lies under it.
pub fn normalize_path(path: &str, manifest_dir: &str) -> (res: String)
    ensures
        res@ == normalized_under(path@, manifest_dir@),
{
    let p = forward_slash_path(path);
    let root = forward_slash_path(manifest_dir);
    let pc = chars_of(p.as_str());
    let rc = chars_of(root.as_str());
    proof {
        assert(pc@ == forward_slashes(path@));
        assert(rc@ == forward_slashes(manifest_dir@));
    }
    if rc.len() > pc.len() {
        proof {
            assert(p@ == pc@);
            assert(normalized_under(path@, manifest_dir@) == forward_slashes(path@));
        }
        return p;
    }
    let mut k: usize = 0;
    while k < rc.len()
        invariant
            rc.len() <= pc.len(),
            pc@ == p@,
            pc@ == forward_slashes(path@),
            rc@ == forward_slashes(manifest_dir@),
            k <= rc.len(),
            forall|m: int| 0 <= m < k ==> pc@[m] == rc@[m],
        decreases rc.len() - k,
    {
        if pc[k] != rc[k] {
            proof {
                assert(pc@.take(rc.len() as int)[k as int] != rc@[k as int]);
            }
            return p;
        }
        k = k + 1;
    }
    proof {
        assert(pc@.take(rc.len() as int) =~= rc@);
    }
    let mut start = rc.len();
    while start < pc.len() && pc[start] == '/'
        invariant
            rc.len() <= start <= pc.len(),
            trim_leading_slashes(pc@.skip(rc.len() as int)) == trim_leading_slashes(pc@.skip(start as int)),
        decreases pc.len() - start,
    {
        proof {
            assert(pc@.skip(start as int).drop_first() =~= pc@.skip(start + 1));
        }
        start = start + 1;
    }
    let mut res = String::new();
    let mut k: usize = start;
    while k < pc.len()
        invariant
            start <= k <= pc.len(),
            res@ == pc@.subrange(start as int, k as int),
        decreases pc.len() - k,
    {
        push_char(&mut res, pc[k]);
        k = k + 1;
        proof {
            assert(res@ =~= pc@.subrange(start as int, k as int));
        }
    }
    proof {
        assert(res@ =~= pc@.skip(start as int));
        if start < pc.len() {
            assert(pc@.skip(start as int)[0] != '/');
        }
    }
    res
}

/// Length of a string in UTF-8 bytes.
pub open spec fn byte_len(s: Seq<char>) -> nat {
    encode_utf8(s).len()
}

/// Width of column `i`: the longest header or cell in it, in bytes.
pub open spec fn column_width(headers: Seq<Seq<char>>, rows: Seq<Seq<Seq<char>>>, i: int) -> nat
    decreases rows.len(),
{
    if rows.len() == 0 {
        byte_len(headers[i])
    } else {
        let w = column_width(headers, rows.drop_last(), i);
        let c = byte_len(rows.last()[i]);
        if c > w {
            c
        } else {
            w
        }
    }
}

/// `n` copies of `c`.
pub open spec fn repeat_char(c: char, n: nat) -> Seq<char> {
    Seq::new(n, |k: int| c)
}

/// One cell: `| `, the value padded with spaces to `w` characters, ` `.
pub open spec fn padded_cell(value: Seq<char>, w: nat) -> Seq<char> {
    "| "@ + value + repeat_char(' ', if w > value.len() { (w - value.len()) as nat } else { 0 }) + " "@
}

/// The cells of a line, each padded to its column width.
pub open spec fn padded_cells(values: Seq<Seq<char>>, widths: Seq<nat>, n: int) -> Seq<char>
    decreases n,
{
    if n <= 0 {
        Seq::empty()
    } else {
        padded_cells(values, widths, n - 1) + padded_cell(values[n - 1], widths[n - 1])
    }
}

/// The separator cells: `|` and `w + 2` dashes per column.
pub open spec fn separator_cells(widths: Seq<nat>, n: int) -> Seq<char>
    decreases n,
{
    if n <= 0 {
        Seq::empty()
    } else {
        separator_cells(widths, n - 1) + seq!['|'] + repeat_char('-', widths[n - 1] + 2)
    }
}

/// The rows below the separator.
pub open spec fn table_rows(rows: Seq<Seq<Seq<char>>>, widths: Seq<nat>, n: int) -> Seq<char>
    decreases rows.len(),
{
    if rows.len() == 0 {
        Seq::empty()
    } else {
        table_rows(rows.drop_last(), widths, n) + padded_cells(rows.last(), widths, n) + "|\n"@
    }
}

/// A markdown table whose columns are as wide as their longest entry.
pub open spec fn aligned_table(headers: Seq<Seq<char>>, rows: Seq<Seq<Seq<char>>>) -> Seq<char> {
    let n = headers.len() as int;
    let widths = Seq::new(headers.len(), |i: int| column_width(headers, rows, i));
    padded_cells(headers, widths, n) + "|\n"@ + separator_cells(widths, n) + "|\n"@ + table_rows(rows, widths, n)
}

proof fn lemma_column_width_bound(headers: Seq<Seq<char>>, rows: Seq<Seq<Seq<char>>>, i: int, bound: nat)
    requires
        byte_len(headers[i]) < bound,
        forall|r: int| 0 <= r < rows.len() ==> byte_len(#[trigger] rows[r][i]) < bound,
    ensures
        column_width(headers, rows, i) < bound,
    decreases rows.len(),
{
    if rows.len() > 0 {
        assert forall|r: int| 0 <= r < rows.drop_last().len() implies byte_len(#[trigger] rows.drop_last()[r][i]) < bound by {
            assert(rows.drop_last()[r] == rows[r]);
        }
        lemma_column_width_bound(headers, rows.drop_last(), i, bound);
        assert(rows.last() == rows[rows.len() - 1]);
    }
}

/// Views of header strings.
pub open spec fn header_views(headers: Seq<&str>) -> Seq<Seq<char>> {
    headers.map_values(|h: &str| h@)
}

/// Views of table rows.
pub open spec fn row_views(rows: Seq<Vec<String>>) -> Seq<Seq<Seq<char>>> {
    rows.map_values(|r: Vec<String>| r@.map_values(|s: String| s@))
}

fn push_repeat(out: &mut String, c: char, n: usize)
    ensures
        final(out)@ == old(out)@ + repeat_char(c, n as nat),
{
    let mut k: usize = 0;
    while k < n
        invariant
            k <= n,
            out@ == old(out)@ + repeat_char(c, k as nat),
        decreases n - k,
    {
        push_char(out, c);
        k = k + 1;
        proof {
            assert(out@ =~= old(out)@ + repeat_char(c, k as nat));
        }
    }
}

fn push_cell(out: &mut String, value: &str, w: usize)
    ensures
        final(out)@ == old(out)@ + padded_cell(value@, w as nat),
{
    push_str(out, "| ");
    push_str(out, value);
    let chars = chars_of(value).len();
    let pad = if w > chars { w - chars } else { 0 };
    push_repeat(out, ' ', pad);
    push_str(out, " ");
    proof {
        assert(final(out)@ =~= old(out)@ + padded_cell(value@, w as nat));
    }
}

/// Renders a markdown table with auto-sized columns: each column is as
/// wide (in bytes) as its longest header or cell, cells are padded with
/// spaces to that many characters, and every line ends with `|` and a line
/// break.
pub fn aligned_md_table(headers: &[&str], rows: &[Vec<String>]) -> (res: String)
    requires
        forall|r: int| 0 <= r < rows.len() ==> #[trigger] rows@[r].len() == headers.len(),
        forall|i: int| 0 <= i < headers.len() ==> byte_len(#[trigger] headers@[i]@) < usize::MAX - 2,
        forall|r: int, i: int| 0 <= r < rows.len() && 0 <= i < headers.len() ==> byte_len(#[trigger] rows@[r]@[i]@) < usize::MAX - 2,
    ensures
        res@ == aligned_table(header_views(headers@), row_views(rows@)),
{
    let ghost hv = header_views(headers@);
    let ghost rv = row_views(rows@);
    let n = headers.len();
    let mut widths: Vec<usize> = Vec::new();
    for i in 0..n
        invariant
            n == headers.len(),
            hv == header_views(headers@),
            widths.len() == i,
            forall|k: int| 0 <= k < i ==> #[trigger] widths@[k] == byte_len(hv[k]),
            forall|k: int| 0 <= k < headers.len() ==> byte_len(#[trigger] headers@[k]@) < usize::MAX - 2,
    {
        widths.push(headers[i].len());
        proof {
            assert(hv[i as int] == headers@[i as int]@);
        }
    }
    proof {
        assert forall|k: int| 0 <= k < n implies #[trigger] widths@[k] == column_width(hv, rv.take(0), k) by {
            assert(rv.take(0).len() == 0);
        }
    }
    for r in 0..rows.len()
        invariant
            n == headers.len(),
            hv == header_views(headers@),
            rv == row_views(rows@),
            widths.len() == n,
            forall|r2: int| 0 <= r2 < rows.len() ==> #[trigger] rows@[r2].len() == headers.len(),
            forall|k: int| 0 <= k < n ==> #[trigger] widths@[k] == column_width(hv, rv.take(r as int), k),
            forall|i: int| 0 <= i < headers.len() ==> byte_len(#[trigger] headers@[i]@) < usize::MAX - 2,
            forall|r2: int, i: int| 0 <= r2 < rows.len() && 0 <= i < headers.len() ==> byte_len(#[trigger] rows@[r2]@[i]@) < usize::MAX - 2,
    {
        let row = &rows[r];
        proof {
            assert(rv.take(r + 1).drop_last() =~= rv.take(r as int));
        }
        for i in 0..n
            invariant
                n == headers.len(),
                row@ == rows@[r as int]@,
                row.len() == n,
                r < rows.len(),
                rv == row_views(rows@),
                widths.len() == n,
                forall|k: int| i <= k < n ==> #[trigger] widths@[k] == column_width(hv, rv.take(r as int), k),
                forall|k: int| 0 <= k < i ==> #[trigger] widths@[k] == column_width(hv, rv.take(r + 1), k),
                forall|r2: int, k: int| 0 <= r2 < rows.len() && 0 <= k < headers.len() ==> byte_len(#[trigger] rows@[r2]@[k]@) < usize::MAX - 2,
                rv.take(r + 1).drop_last() =~= rv.take(r as int),
        {
            let c = row[i].as_str().len();
            proof {
                assert(rv.take(r + 1).last() == rv[r as int]);
                assert(rv[r as int][i as int] == row@[i as int]@);
                assert(byte_len(rows@[r as int]@[i as int]@) < usize::MAX - 2);
                assert(c == byte_len(rv.take(r + 1).last()[i as int]));
            }
            if c > widths[i] {
                widths.set(i, c);
            }
        }
    }
    proof {
        assert(rv.take(rows.len() as int) =~= rv);
    }
    let ghost wv = Seq::new(hv.len(), |i: int| column_width(hv, rv, i));
    proof {
        assert forall|k: int| 0 <= k < n implies #[trigger] wv[k] < usize::MAX - 2 by {
            assert(byte_len(hv[k]) < usize::MAX - 2) by {
                assert(hv[k] == headers@[k]@);
            }
            assert forall|r: int| 0 <= r < rv.len() implies byte_len(#[trigger] rv[r][k]) < usize::MAX - 2 by {
                assert(rows@[r].len() == headers.len());
                assert(rv[r][k] == rows@[r]@[k]@);
            }
            lemma_column_width_bound(hv, rv, k, (usize::MAX - 2) as nat);
        }
    }
    let mut out = String::new();
    for i in 0..n
        invariant
            n == headers.len(),
            widths.len() == n,
            forall|k: int| 0 <= k < n ==> #[trigger] widths@[k] == wv[k],
            wv.len() == n,
            hv == header_views(headers@),
            out@ == padded_cells(hv, wv, i as int),
    {
        push_cell(&mut out, headers[i], widths[i]);
    }
    push_str(&mut out, "|\n");
    let ghost head = out@;
    for i in 0..n
        invariant
            n == headers.len(),
            widths.len() == n,
            forall|k: int| 0 <= k < n ==> #[trigger] widths@[k] == wv[k],
            forall|k: int| 0 <= k < n ==> #[trigger] wv[k] < usize::MAX - 2,
            wv.len() == n,
            out@ == head + separator_cells(wv, i as int),
    {
        push_char(&mut out, '|');
        push_repeat(&mut out, '-', widths[i] + 2);
        proof {
            assert(out@ =~= head + separator_cells(wv, i + 1));
        }
    }
    push_str(&mut out, "|\n");
    let ghost top = out@;
    for r in 0..rows.len()
        invariant
            n == headers.len(),
            widths.len() == n,
            forall|k: int| 0 <= k < n ==> #[trigger] widths@[k] == wv[k],
            wv.len() == n,
            rv == row_views(rows@),
            forall|r2: int| 0 <= r2 < rows.len() ==> #[trigger] rows@[r2].len() == headers.len(),
            out@ == top + table_rows(rv.take(r as int), wv, n as int),
    {
        let row = &rows[r];
        let ghost before = out@;
        for i in 0..n
            invariant
                n == headers.len(),
                row.len() == n,
                row@ == rows@[r as int]@,
                rv == row_views(rows@),
                r < rows.len(),
                widths.len() == n,
                forall|k: int| 0 <= k < n ==> #[trigger] widths@[k] == wv[k],
                wv.len() == n,
                out@ == before + padded_cells(rv[r as int], wv, i as int),
        {
            push_cell(&mut out, row[i].as_str(), widths[i]);
        }
        push_str(&mut out, "|\n");
        proof {
            assert(rv.take(r + 1).drop_last() =~= rv.take(r as int));
            assert(out@ =~= top + table_rows(rv.take(r + 1), wv, n as int));
        }
    }
    proof {
        assert(rv.take(rows.len() as int) =~= rv);
        assert(out@ =~= aligned_table(hv, rv));
    }
    out
}

} // verus!
