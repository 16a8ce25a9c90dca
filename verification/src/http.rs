//! The byte-level HTTP/1.1 pieces the mock services share: where a request
//! head ends, which body length it announces, and the fixed responses.

use vstd::prelude::*;
use vstd::utf8::{decode_utf8, valid_utf8};
use vstd::string::StringSliceAdditionalSpecFns;
use crate::text::{chars_of, eq_ignore_ascii_case, eq_ignore_ascii_case_spec, parse_usize, parse_usize_spec, trim_chars, trim_spec};

verus! {

/// `needle` occurs in `haystack` at position `i`.
pub open spec fn occurs_at(haystack: Seq<u8>, needle: Seq<u8>, i: int) -> bool {
    0 <= i && i + needle.len() <= haystack.len() && haystack.subrange(i, i + needle.len()) == needle
}

/// Position of the first occurrence of `needle` in `haystack`, if any.
pub open spec fn first_occurrence(haystack: Seq<u8>, needle: Seq<u8>) -> Option<int> {
    if exists|i: int| #[trigger] occurs_at(haystack, needle, i) {
        Some(choose|i: int| #[trigger] occurs_at(haystack, needle, i) && forall|j: int| 0 <= j < i ==> !occurs_at(haystack, needle, j))
    } else {
        None
    }
}

/// Position of the first occurrence of a non-empty `needle` in `haystack`.
pub fn find_subslice(haystack: &[u8], needle: &[u8]) -> (res: Option<usize>)
    requires
        needle.len() > 0,
    ensures
        match res {
            Some(i) => occurs_at(haystack@, needle@, i as int) && forall|j: int| 0 <= j < i ==> !occurs_at(haystack@, needle@, j),
            None => forall|j: int| !occurs_at(haystack@, needle@, j),
        },
        res == (match first_occurrence(haystack@, needle@) {
            Some(i) => Some(i as usize),
            None => None::<usize>,
        }),
{
    if needle.len() > haystack.len() {
        proof {
            assert forall|j: int| !occurs_at(haystack@, needle@, j) by {}
        }
        return None;
    }
    let last = haystack.len() - needle.len();
    let mut i: usize = 0;
    while i <= last
        invariant
            last == haystack.len() - needle.len(),
            needle.len() <= haystack.len(),
            forall|j: int| 0 <= j < i ==> !occurs_at(haystack@, needle@, j),
        decreases last + 1 - i,
    {
        let mut k: usize = 0;
        while k < needle.len() && haystack[i + k] == needle[k]
            invariant
                i <= last,
                last == haystack.len() - needle.len(),
                k <= needle.len(),
                forall|m: int| 0 <= m < k ==> haystack@[i + m] == needle@[m],
            decreases needle.len() - k,
        {
            k = k + 1;
        }
        if k == needle.len() {
            proof {
                assert(haystack@.subrange(i as int, i + needle.len()) =~= needle@);
                assert(occurs_at(haystack@, needle@, i as int));
                let c = choose|c: int| #[trigger] occurs_at(haystack@, needle@, c) && forall|j: int| 0 <= j < c ==> !occurs_at(haystack@, needle@, j);
                if c < i {
                } else if c > i {
                    assert(!occurs_at(haystack@, needle@, i as int));
                }
            }
            return Some(i);
        }
        proof {
            assert(haystack@.subrange(i as int, i + needle.len())[k as int] == haystack@[i + k]);
        }
        i = i + 1;
    }
    proof {
        assert forall|j: int| !occurs_at(haystack@, needle@, j) by {
            if j > last {
            }
        }
    }
    None
}

/// Characters of `bytes` after lossy UTF-8 decoding (invalid sequences
/// become U+FFFD).
pub uninterp spec fn utf8_lossy_chars(bytes: Seq<u8>) -> Seq<char>;

/// Decodes bytes as UTF-8, replacing invalid sequences.
///
/// Trusted: `String::from_utf8_lossy`. The contract names the result and
/// states what its documentation gives: valid UTF-8 is decoded unchanged.
#[verifier::external_body]
fn from_utf8_lossy(bytes: &[u8]) -> (res: String)
    ensures
        res@ == utf8_lossy_chars(bytes@),
        valid_utf8(bytes@) ==> res@ == decode_utf8(bytes@),
{
    String::from_utf8_lossy(bytes).into_owned()
}

/// `line` without one trailing carriage return.
pub open spec fn strip_cr(line: Seq<char>) -> Seq<char> {
    if line.len() > 0 && line.last() == '\r' {
        line.drop_last()
    } else {
        line
    }
}

/// Lines of `s` still to come when the current unfinished line holds `cur`.
pub open spec fn lines_after(s: Seq<char>, cur: Seq<char>) -> Seq<Seq<char>>
    decreases s.len(),
{
    if s.len() == 0 {
        if cur.len() == 0 {
            Seq::empty()
        } else {
            seq![cur]
        }
    } else if s[0] == '\n' {
        seq![strip_cr(cur)] + lines_after(s.drop_first(), Seq::empty())
    } else {
        lines_after(s.drop_first(), cur.push(s[0]))
    }
}

/// The lines of `s` as `str::lines` yields them: split at `\n`, a `\r`
/// before the `\n` dropped, no empty line after a final `\n`.
pub open spec fn lines_of(s: Seq<char>) -> Seq<Seq<char>> {
    lines_after(s, Seq::empty())
}

/// Position of the first `c` in `s`, if any.
pub open spec fn first_index_of(s: Seq<char>, c: char) -> Option<int> {
    if exists|i: int| 0 <= i < s.len() && s[i] == c {
        Some(choose|i: int| 0 <= i < s.len() && s[i] == c && forall|j: int| 0 <= j < i ==> s[j] != c)
    } else {
        None
    }
}

/// The length a header line announces: the line splits at its first `:`,
/// the trimmed name is `content-length` in any ASCII case, and the trimmed
/// value parses as a `usize`.
pub open spec fn header_line_length(line: Seq<char>) -> Option<usize> {
    match first_index_of(line, ':') {
        None => None,
        Some(i) => if eq_ignore_ascii_case_spec(trim_spec(line.take(i)), "content-length"@) {
            parse_usize_spec(trim_spec(line.skip(i + 1)))
        } else {
            None
        },
    }
}

/// The first length announced by a line of `lines`.
pub open spec fn first_announced_length(lines: Seq<Seq<char>>) -> Option<usize>
    decreases lines.len(),
{
    if lines.len() == 0 {
        None
    } else {
        match header_line_length(lines[0]) {
            Some(v) => Some(v),
            None => first_announced_length(lines.drop_first()),
        }
    }
}

/// Content-Length of a request head: the first line announcing one, else 0.
pub open spec fn content_length_spec(head: Seq<char>) -> usize {
    match first_announced_length(lines_of(head)) {
        Some(v) => v,
        None => 0,
    }
}

proof fn lemma_first_announced_concat(a: Seq<Seq<char>>, b: Seq<Seq<char>>)
    ensures
        first_announced_length(a + b) == match first_announced_length(a) {
            Some(v) => Some(v),
            None => first_announced_length(b),
        },
    decreases a.len(),
{
    if a.len() > 0 {
        assert((a + b).drop_first() =~= a.drop_first() + b);
        lemma_first_announced_concat(a.drop_first(), b);
    } else {
        assert(a + b =~= b);
    }
}

/// The length announced by one header line.
fn line_length(line: &[char]) -> (res: Option<usize>)
    ensures
        res == header_line_length(line@),
{
    let mut i: usize = 0;
    while i < line.len() && line[i] != ':'
        invariant
            i <= line.len(),
            forall|j: int| 0 <= j < i ==> line@[j] != ':',
        decreases line.len() - i,
    {
        i = i + 1;
    }
    if i == line.len() {
        return None;
    }
    proof {
        let c = choose|c: int| 0 <= c < line@.len() && line@[c] == ':' && forall|j: int| 0 <= j < c ==> line@[j] != ':';
        if c < i {
        } else if c > i {
        }
        assert(c == i);
        assert(line@.take(i as int) =~= line@.subrange(0, i as int));
        assert(line@.skip(i + 1) =~= line@.subrange(i + 1, line.len() as int));
    }
    let name = trim_chars(line, 0, i);
    let target = chars_of("content-length");
    if eq_ignore_ascii_case(name.as_slice(), target.as_slice()) {
        let value = trim_chars(line, i + 1, line.len());
        parse_usize(value.as_slice())
    } else {
        None
    }
}

/// Content-Length announced by a request head (0 when none is).
pub fn content_length(head: &[char]) -> (res: usize)
    ensures
        res == content_length_spec(head@),
{
    let mut cur: Vec<char> = Vec::new();
    let mut k: usize = 0;
    let ghost mut done: Seq<Seq<char>> = Seq::empty();
    proof {
        assert(head@.skip(0) =~= head@);
        assert(done + lines_after(head@.skip(0), cur@) =~= lines_after(head@, Seq::empty()));
    }
    while k < head.len()
        invariant
            k <= head.len(),
            lines_of(head@) == done + lines_after(head@.skip(k as int), cur@),
            first_announced_length(done) is None,
        decreases head.len() - k,
    {
        let ghost rest = head@.skip(k as int);
        proof {
            assert(rest[0] == head@[k as int]);
            assert(rest.drop_first() =~= head@.skip(k + 1));
        }
        if head[k] == '\n' {
            let mut end = cur.len();
            if end > 0 && cur[end - 1] == '\r' {
                end = end - 1;
            }
            let line = vstd::slice::slice_subrange(cur.as_slice(), 0, end);
            proof {
                assert(line@ =~= strip_cr(cur@));
            }
            let found = line_length(line);
            proof {
                lemma_first_announced_concat(done, seq![strip_cr(cur@)]);
                lemma_first_announced_concat(seq![strip_cr(cur@)], lines_after(head@.skip(k + 1), Seq::empty()));
                assert(seq![strip_cr(cur@)].drop_first() =~= Seq::<Seq<char>>::empty());
                assert(done + lines_after(rest, cur@) =~= (done + seq![strip_cr(cur@)]) + lines_after(head@.skip(k + 1), Seq::empty()));
                lemma_first_announced_concat(done + seq![strip_cr(cur@)], lines_after(head@.skip(k + 1), Seq::empty()));
            }
            if let Some(v) = found {
                return v;
            }
            proof {
                let x = strip_cr(cur@);
                assert(header_line_length(x) is None);
                assert(seq![x][0] == x);
                assert(first_announced_length(seq![x].drop_first()) is None);
                assert(first_announced_length(seq![x]) is None);
                done = done + seq![x];
            }
            cur = Vec::new();
        } else {
            cur.push(head[k]);
        }
        k = k + 1;
    }
    proof {
        assert(head@.skip(k as int).len() == 0);
    }
    if cur.len() > 0 {
        let found = line_length(cur.as_slice());
        proof {
            lemma_first_announced_concat(done, seq![cur@]);
            assert(seq![cur@].drop_first() =~= Seq::<Seq<char>>::empty());
        }
        match found {
            Some(v) => v,
            None => 0,
        }
    } else {
        proof {
            assert(done + Seq::<Seq<char>>::empty() =~= done);
        }
        0
    }
}

/// The blank line that ends a request head.
pub open spec fn head_terminator() -> Seq<u8> {
    seq![13u8, 10u8, 13u8, 10u8]
}

/// Where the head of a buffered request ends and the body length it
/// announces: `None` until the blank line that ends the head has arrived;
/// otherwise the position of that blank line and the Content-Length of the
/// head (decoded lossily), 0 when none is announced.
pub open spec fn parse_headers_spec(buf: Seq<u8>) -> Option<(usize, usize)> {
    match first_occurrence(buf, head_terminator()) {
        None => None,
        Some(h) => Some((h as usize, content_length_spec(utf8_lossy_chars(buf.take(h))))),
    }
}

/// Locates the header terminator (`\r\n\r\n`) and the Content-Length value.
pub fn parse_headers(buf: &[u8]) -> (res: Option<(usize, usize)>)
    ensures
        res == parse_headers_spec(buf@),
{
    let terminator: [u8; 4] = [13, 10, 13, 10];
    proof {
        assert(terminator@ =~= head_terminator());
    }
    match find_subslice(buf, terminator.as_slice()) {
        None => None,
        Some(h) => {
            let head_bytes = vstd::slice::slice_subrange(buf, 0, h);
            proof {
                assert(head_bytes@ =~= buf@.take(h as int));
            }
            let head = from_utf8_lossy(head_bytes);
            let chars = chars_of(head.as_str());
            Some((h, content_length(chars.as_slice())))
        },
    }
}

/// ASCII decimal digits of `n`.
pub open spec fn decimal_bytes(n: nat) -> Seq<u8>
    decreases n,
{
    if n < 10 {
        seq![(48 + n) as u8]
    } else {
        decimal_bytes(n / 10).push((48 + n % 10) as u8)
    }
}

/// Appends the decimal digits of `n`.
pub fn push_decimal(out: &mut Vec<u8>, n: usize)
    ensures
        final(out)@ == old(out)@ + decimal_bytes(n as nat),
    decreases n,
{
    if n >= 10 {
        push_decimal(out, n / 10);
    }
    let d = (n % 10) as u8;
    out.push(48 + d);
    proof {
        if n >= 10 {
            assert(final(out)@ =~= old(out)@ + decimal_bytes(n as nat));
        } else {
            assert(final(out)@ =~= old(out)@ + decimal_bytes(n as nat));
        }
    }
}

fn push_str(out: &mut Vec<u8>, s: &str)
    ensures
        final(out)@ == old(out)@ + s.spec_bytes(),
{
    let bytes = s.as_bytes();
    let mut i: usize = 0;
    let ghost start = out@;
    while i < bytes.len()
        invariant
            i <= bytes.len(),
            bytes@ == s.spec_bytes(),
            out@ == start + bytes@.take(i as int),
        decreases bytes.len() - i,
    {
        out.push(bytes[i]);
        i = i + 1;
        proof {
            assert(out@ =~= start + bytes@.take(i as int));
        }
    }
    proof {
        assert(bytes@.take(bytes.len() as int) =~= bytes@);
    }
}

/// `200 OK` response carrying a JSON body.
pub open spec fn json_response_spec(body: Seq<u8>) -> Seq<u8> {
    "HTTP/1.1 200 OK\r\nContent-Type: application/json\r\nContent-Length: ".spec_bytes() + decimal_bytes(body.len())
        + "\r\nConnection: close\r\n\r\n".spec_bytes() + body
}

/// The `200 OK` response that carries `body` as JSON and closes the
/// connection.
pub fn json_response(body: &[u8]) -> (res: Vec<u8>)
    ensures
        res@ == json_response_spec(body@),
{
    let mut out: Vec<u8> = Vec::new();
    push_str(&mut out, "HTTP/1.1 200 OK\r\nContent-Type: application/json\r\nContent-Length: ");
    push_decimal(&mut out, body.len());
    push_str(&mut out, "\r\nConnection: close\r\n\r\n");
    let ghost head = out@;
    let mut i: usize = 0;
    while i < body.len()
        invariant
            i <= body.len(),
            out@ == head + body@.take(i as int),
        decreases body.len() - i,
    {
        out.push(body[i]);
        i = i + 1;
        proof {
            assert(out@ =~= head + body@.take(i as int));
        }
    }
    proof {
        assert(body@.take(body.len() as int) =~= body@);
        assert(out@ =~= json_response_spec(body@));
    }
    out
}

/// The empty `400 Bad Request` response that closes the connection.
pub fn bad_request_response() -> (res: Vec<u8>)
    ensures
        res@ == "HTTP/1.1 400 Bad Request\r\nContent-Length: 0\r\nConnection: close\r\n\r\n".spec_bytes(),
{
    let mut out: Vec<u8> = Vec::new();
    push_str(&mut out, "HTTP/1.1 400 Bad Request\r\nContent-Length: 0\r\nConnection: close\r\n\r\n");
    proof {
        assert(out@ =~= "HTTP/1.1 400 Bad Request\r\nContent-Length: 0\r\nConnection: close\r\n\r\n".spec_bytes());
    }
    out
}

/// Number of lines of a text, as `str::lines().count()` gives it.
pub fn count_lines(text: &str) -> (res: usize)
    ensures
        res == lines_of(text@).len(),
{
    let s = chars_of(text);
    let mut n: usize = 0;
    let mut in_line = false;
    let mut k: usize = 0;
    let ghost mut cur: Seq<char> = Seq::empty();
    proof {
        assert(s@.skip(0) =~= s@);
    }
    while k < s.len()
        invariant
            s@ == text@,
            k <= s.len(),
            in_line == (cur.len() > 0),
            n + (if in_line { 1int } else { 0int }) <= k,
            lines_of(text@).len() == n + lines_after(s@.skip(k as int), cur).len(),
        decreases s.len() - k,
    {
        let ghost rest = s@.skip(k as int);
        proof {
            assert(rest[0] == s@[k as int]);
            assert(rest.drop_first() =~= s@.skip(k + 1));
        }
        if s[k] == '\n' {
            n = n + 1;
            in_line = false;
            proof {
                cur = Seq::empty();
            }
        } else {
            in_line = true;
            proof {
                cur = cur.push(s@[k as int]);
            }
        }
        k = k + 1;
    }
    proof {
        assert(s@.skip(k as int).len() == 0);
    }
    if in_line {
        n + 1
    } else {
        n
    }
}

} // verus!
