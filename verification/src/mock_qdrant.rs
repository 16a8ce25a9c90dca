//! Request classification and the fixed reply of the capturing Qdrant
//! stand-in.

use vstd::prelude::*;
use vstd::string::StringSliceAdditionalSpecFns;
use crate::text::chars_of;

verus! {

/// `needle` occurs in `s` at position `i`.
pub open spec fn chars_at(s: Seq<char>, needle: Seq<char>, i: int) -> bool {
    0 <= i && i + needle.len() <= s.len() && s.subrange(i, i + needle.len()) == needle
}

/// A request head is a point upsert: it starts with `PUT ` and mentions
/// `/points`.
pub open spec fn is_upsert_spec(head: Seq<char>) -> bool {
    chars_at(head, "PUT "@, 0) && exists|i: int| #[trigger] chars_at(head, "/points"@, i)
}

/// Whether `needle` occurs in `s` at position `i`.
pub(crate) fn matches_at(s: &[char], needle: &[char], i: usize) -> (res: bool)
    ensures
        res == chars_at(s@, needle@, i as int),
{
    if i > s.len() || needle.len() > s.len() - i {
        return false;
    }
    let mut k: usize = 0;
    while k < needle.len()
        invariant
            i + needle.len() <= s.len(),
            k <= needle.len(),
            forall|m: int| 0 <= m < k ==> s@[i + m] == needle@[m],
        decreases needle.len() - k,
    {
        if s[i + k] != needle[k] {
            proof {
                assert(s@.subrange(i as int, i + needle.len())[k as int] != needle@[k as int]);
            }
            return false;
        }
        k = k + 1;
    }
    proof {
        assert(s@.subrange(i as int, i + needle.len()) =~= needle@);
    }
    true
}

/// Whether a request head is a point upsert (`PUT ` request mentioning
/// `/points`).
pub fn is_upsert_request(head: &str) -> (res: bool)
    ensures
        res == is_upsert_spec(head@),
{
    let s = chars_of(head);
    let put = chars_of("PUT ");
    let points = chars_of("/points");
    if !matches_at(s.as_slice(), put.as_slice(), 0) {
        return false;
    }
    let mut i: usize = 0;
    while i < s.len()
        invariant
            s@ == head@,
            points@ == "/points"@,
            put@ == "PUT "@,
            chars_at(s@, put@, 0),
            i <= s.len(),
            forall|j: int| 0 <= j < i ==> !chars_at(s@, points@, j),
        decreases s.len() - i,
    {
        if matches_at(s.as_slice(), points.as_slice(), i) {
            return true;
        }
        i = i + 1;
    }
    proof {
        reveal_strlit("/points");
        assert forall|j: int| !#[trigger] chars_at(head@, "/points"@, j) by {
            if j >= s.len() {
            }
        }
    }
    false
}

/// The reply to every request: `200 OK` with the empty JSON object.
pub fn empty_json_response() -> (res: Vec<u8>)
    ensures
        res@ == "HTTP/1.1 200 OK\r\ncontent-length: 2\r\ncontent-type: application/json\r\n\r\n{}".spec_bytes(),
{
    let bytes = "HTTP/1.1 200 OK\r\ncontent-length: 2\r\ncontent-type: application/json\r\n\r\n{}".as_bytes();
    vstd::slice::slice_to_vec(bytes)
}

} // verus!
