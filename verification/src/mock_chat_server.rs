//! Prompt side of the deterministic mock chat service: the candidate ids a
//! rerank prompt lists after each `ID:` marker.

use vstd::prelude::*;
use crate::text::{chars_of, is_white_space, is_whitespace, push_char};

verus! {

/// A marker `ID:` starts at position `p` of `s`.
pub open spec fn marker_at(s: Seq<char>, p: int) -> bool {
    0 <= p && p + 3 <= s.len() && s[p] == 'I' && s[p + 1] == 'D' && s[p + 2] == ':'
}

/// First position at or after `p` that is not white space.
pub open spec fn skip_white_space(s: Seq<char>, p: int) -> int
    decreases s.len() - p,
{
    if 0 <= p < s.len() && is_white_space(s[p]) {
        skip_white_space(s, p + 1)
    } else {
        p
    }
}

/// Characters an id is made of: anything but white space, `\`, `"` and `,`.
pub open spec fn is_id_char(c: char) -> bool {
    !is_white_space(c) && c != '\\' && c != '"' && c != ','
}

/// The run of id characters starting at `p`.
pub open spec fn id_run(s: Seq<char>, p: int) -> Seq<char>
    decreases s.len() - p,
{
    if 0 <= p < s.len() && is_id_char(s[p]) {
        seq![s[p]] + id_run(s, p + 1)
    } else {
        Seq::empty()
    }
}

/// The non-empty ids that follow the markers at or after position `p`, in
/// order.
pub open spec fn candidate_ids_from(s: Seq<char>, p: int) -> Seq<Seq<char>>
    decreases s.len() - p,
{
    if p < 0 || p >= s.len() {
        Seq::empty()
    } else {
        let rest = candidate_ids_from(s, p + 1);
        if marker_at(s, p) && id_run(s, skip_white_space(s, p + 3)).len() > 0 {
            seq![id_run(s, skip_white_space(s, p + 3))] + rest
        } else {
            rest
        }
    }
}

/// Every white space character between a marker and its id is a single
/// byte in UTF-8 (the scan over the prompt steps one byte at a time).
pub open spec fn marker_spacing_is_ascii(s: Seq<char>) -> bool {
    forall|p: int, q: int|
        #[trigger] marker_at(s, p) && p + 3 <= q < skip_white_space(s, p + 3) ==> (#[trigger] s[q] as u32) < 0x80
}

/// Position after the white space starting at `p`.
fn skip_ws(s: &[char], p: usize) -> (res: usize)
    requires
        p <= s.len(),
    ensures
        res == skip_white_space(s@, p as int),
        p <= res <= s.len(),
{
    let mut q = p;
    while q < s.len() && is_whitespace(s[q])
        invariant
            p <= q <= s.len(),
            skip_white_space(s@, q as int) == skip_white_space(s@, p as int),
        decreases s.len() - q,
    {
        q = q + 1;
    }
    q
}

/// The id starting at `p`.
fn read_id(s: &[char], p: usize) -> (res: (String, usize))
    requires
        p <= s.len(),
    ensures
        res.0@ == id_run(s@, p as int),
        res.1 == res.0@.len(),
{
    let mut id = String::new();
    let mut q = p;
    while q < s.len() && !is_whitespace(s[q]) && s[q] != '\\' && s[q] != '"' && s[q] != ','
        invariant
            p <= q <= s.len(),
            id@ + id_run(s@, q as int) == id_run(s@, p as int),
            id@.len() == q - p,
        decreases s.len() - q,
    {
        let ghost before = id@;
        push_char(&mut id, s[q]);
        proof {
            assert(id@ + id_run(s@, q + 1) =~= before + (seq![s@[q as int]] + id_run(s@, q + 1)));
        }
        q = q + 1;
    }
    proof {
        assert(id@ + Seq::<char>::empty() =~= id@);
    }
    (id, q - p)
}

/// Extracts candidate ids from a rerank prompt (`[N] ID: <id>` entries).
///
/// The prompt arrives JSON-escaped inside the request body (newlines are
/// literal `\n` sequences), so the whole body is scanned for every `ID:`
/// marker; the id is the run after the marker's white space up to white
/// space, `\`, `"` or `,`, and empty runs are skipped.
pub fn extract_candidate_ids(request_body: &str) -> (ids: Vec<String>)
    requires
        marker_spacing_is_ascii(request_body@),
    ensures
        ids@.map_values(|id: String| id@) == candidate_ids_from(request_body@, 0),
{
    let s = chars_of(request_body);
    let mut ids: Vec<String> = Vec::new();
    let mut p: usize = 0;
    while p < s.len()
        invariant
            s@ == request_body@,
            p <= s.len(),
            ids@.map_values(|id: String| id@) + candidate_ids_from(s@, p as int) == candidate_ids_from(s@, 0),
        decreases s.len() - p,
    {
        let ghost before = ids@;
        if s.len() >= 3 && p <= s.len() - 3 && s[p] == 'I' && s[p + 1] == 'D' && s[p + 2] == ':' {
            let start = skip_ws(s.as_slice(), p + 3);
            let (id, id_len) = read_id(s.as_slice(), start);
            let ghost idv = id@;
            if id_len > 0 {
                ids.push(id);
                proof {
                    assert(ids@.map_values(|id: String| id@) =~= before.map_values(|id: String| id@).push(idv));
                    assert(before.map_values(|id: String| id@).push(idv) + candidate_ids_from(s@, p + 1)
                        =~= before.map_values(|id: String| id@) + (seq![idv] + candidate_ids_from(s@, p + 1)));
                }
            }
        }
        p = p + 1;
    }
    proof {
        assert(candidate_ids_from(s@, s.len() as int) == Seq::<Seq<char>>::empty());
        assert(ids@.map_values(|id: String| id@) + Seq::<Seq<char>>::empty() =~= ids@.map_values(|id: String| id@));
    }
    ids
}

} // verus!
