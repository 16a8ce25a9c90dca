//! Character-level string helpers shared by the formatting and parsing code.

use vstd::prelude::*;

verus! {

/// Appends one character to a string.
///
/// Trusted: `String::push`. The contract claims that the characters of the
/// string afterwards are the old characters followed by `c`.
#[verifier::external_body]
pub(crate) fn push_char(s: &mut String, c: char)
    ensures
        final(s)@ == old(s)@.push(c),
{
    s.push(c)
}

/// The characters of a string slice, in order.
pub fn chars_of(s: &str) -> (res: Vec<char>)
    ensures
        res@ == s@,
{
    let mut res: Vec<char> = Vec::new();
    for c in it: s.chars()
        invariant
            res@ == it.seq().take(it.index()),
            it.seq() == s@,
    {
        res.push(c);
        assert(it.seq().take(it.index() + 1) =~= it.seq().take(it.index()).push(c));
    }
    assert(s@.take(s@.len() as int) =~= s@);
    res
}

/// Characters of each string.
pub open spec fn string_views(v: Seq<String>) -> Seq<Seq<char>> {
    v.map_values(|s: String| s@)
}

/// Unicode `White_Space` property, the test `char::is_whitespace` makes.
pub open spec fn is_white_space(c: char) -> bool {
    let v = c as u32;
    ||| 0x09 <= v <= 0x0d
    ||| v == 0x20
    ||| v == 0x85
    ||| v == 0xa0
    ||| v == 0x1680
    ||| 0x2000 <= v <= 0x200a
    ||| v == 0x2028
    ||| v == 0x2029
    ||| v == 0x202f
    ||| v == 0x205f
    ||| v == 0x3000
}

/// Whether `c` is Unicode white space.
pub fn is_whitespace(c: char) -> (res: bool)
    ensures
        res == is_white_space(c),
{
    let v = c as u32;
    (0x09 <= v && v <= 0x0d) || v == 0x20 || v == 0x85 || v == 0xa0 || v == 0x1680 || (0x2000 <= v && v <= 0x200a)
        || v == 0x2028 || v == 0x2029 || v == 0x202f || v == 0x205f || v == 0x3000
}

/// `s` with leading white space removed.
pub open spec fn trim_start_spec(s: Seq<char>) -> Seq<char>
    decreases s.len(),
{
    if s.len() > 0 && is_white_space(s[0]) {
        trim_start_spec(s.drop_first())
    } else {
        s
    }
}

/// `s` with trailing white space removed.
pub open spec fn trim_end_spec(s: Seq<char>) -> Seq<char>
    decreases s.len(),
{
    if s.len() > 0 && is_white_space(s.last()) {
        trim_end_spec(s.drop_last())
    } else {
        s
    }
}

/// `s` without leading and trailing white space, as `str::trim` gives it.
pub open spec fn trim_spec(s: Seq<char>) -> Seq<char> {
    trim_end_spec(trim_start_spec(s))
}

proof fn lemma_trim_start_sub(s: Seq<char>, lo: int, hi: int)
    requires
        0 <= lo <= hi <= s.len(),
        forall|k: int| 0 <= k < lo ==> is_white_space(#[trigger] s[k]),
        lo == hi || !is_white_space(s[lo]),
    ensures
        trim_start_spec(s.subrange(0, hi)) == s.subrange(lo, hi),
    decreases lo,
{
    if lo > 0 {
        assert(s.subrange(0, hi).drop_first() =~= s.subrange(1, hi));
        assert(s.subrange(1, hi) =~= s.drop_first().subrange(0, hi - 1));
        lemma_trim_start_sub(s.drop_first(), lo - 1, hi - 1);
        assert(s.drop_first().subrange(lo - 1, hi - 1) =~= s.subrange(lo, hi));
    } else {
        assert(s.subrange(0, hi) =~= s.subrange(lo, hi));
    }
}

proof fn lemma_trim_end_sub(s: Seq<char>, lo: int, hi: int)
    requires
        0 <= lo <= hi <= s.len(),
        forall|k: int| hi <= k < s.len() ==> is_white_space(#[trigger] s[k]),
        lo == hi || !is_white_space(s[hi - 1]),
    ensures
        trim_end_spec(s.subrange(lo, s.len() as int)) == s.subrange(lo, hi),
    decreases s.len() - hi,
{
    if hi < s.len() {
        assert(s.subrange(lo, s.len() as int).drop_last() =~= s.drop_last().subrange(lo, s.len() - 1));
        lemma_trim_end_sub(s.drop_last(), lo, hi);
        assert(s.drop_last().subrange(lo, hi) =~= s.subrange(lo, hi));
    } else {
        if lo == hi {
            assert(s.subrange(lo, s.len() as int).len() == 0);
        }
    }
}

/// The characters of `s[lo..hi]` without leading and trailing white space.
pub fn trim_chars(s: &[char], lo: usize, hi: usize) -> (res: Vec<char>)
    requires
        lo <= hi <= s.len(),
    ensures
        res@ == trim_spec(s@.subrange(lo as int, hi as int)),
{
    let ghost t = s@.subrange(lo as int, hi as int);
    let mut a = lo;
    while a < hi && is_whitespace(s[a])
        invariant
            lo <= a <= hi <= s.len(),
            forall|k: int| lo <= k < a ==> is_white_space(#[trigger] s@[k]),
        decreases hi - a,
    {
        a = a + 1;
    }
    let mut b = hi;
    while b > a && is_whitespace(s[b - 1])
        invariant
            lo <= a <= b <= hi <= s.len(),
            forall|k: int| b <= k < hi ==> is_white_space(#[trigger] s@[k]),
        decreases b - a,
    {
        b = b - 1;
    }
    proof {
        lemma_trim_start_sub(t, a - lo, hi - lo);
        assert(t.subrange(0, hi - lo) =~= t);
        let u = t.subrange(a - lo, hi - lo);
        assert(u =~= s@.subrange(a as int, hi as int));
        lemma_trim_end_sub(s@.subrange(a as int, hi as int), 0, b - a);
        assert(s@.subrange(a as int, hi as int).subrange(0, hi - a) =~= s@.subrange(a as int, hi as int));
        assert(s@.subrange(a as int, hi as int).subrange(0, b - a) =~= s@.subrange(a as int, b as int));
    }
    let mut res: Vec<char> = Vec::new();
    let mut k = a;
    while k < b
        invariant
            a <= k <= b <= s.len(),
            res@ == s@.subrange(a as int, k as int),
        decreases b - k,
    {
        res.push(s[k]);
        k = k + 1;
        proof {
            assert(res@ =~= s@.subrange(a as int, k as int));
        }
    }
    res
}

/// Code point of the ASCII lower-case form of a character (other
/// characters keep their code point).
pub open spec fn ascii_lower(c: char) -> u32 {
    if 'A' <= c <= 'Z' {
        ((c as u32) + 32) as u32
    } else {
        c as u32
    }
}

/// Equality up to ASCII case, as `eq_ignore_ascii_case` tests it.
pub open spec fn eq_ignore_ascii_case_spec(a: Seq<char>, b: Seq<char>) -> bool {
    a.len() == b.len() && forall|i: int| 0 <= i < a.len() ==> ascii_lower(#[trigger] a[i]) == ascii_lower(b[i])
}

fn lower_ascii(c: char) -> (res: u32)
    ensures
        res == ascii_lower(c),
{
    if 'A' <= c && c <= 'Z' {
        (c as u32) + 32
    } else {
        c as u32
    }
}

/// Whether two character sequences are equal up to ASCII case.
pub fn eq_ignore_ascii_case(a: &[char], b: &[char]) -> (res: bool)
    ensures
        res == eq_ignore_ascii_case_spec(a@, b@),
{
    if a.len() != b.len() {
        return false;
    }
    let mut i: usize = 0;
    while i < a.len()
        invariant
            a.len() == b.len(),
            i <= a.len(),
            forall|k: int| 0 <= k < i ==> ascii_lower(#[trigger] a@[k]) == ascii_lower(b@[k]),
        decreases a.len() - i,
    {
        if lower_ascii(a[i]) != lower_ascii(b[i]) {
            return false;
        }
        i = i + 1;
    }
    true
}

/// Value of a decimal digit character.
pub open spec fn digit_value(c: char) -> nat {
    ((c as u32) - 0x30) as nat
}

/// Whether `c` is one of `0`..`9`.
pub open spec fn is_digit(c: char) -> bool {
    '0' <= c <= '9'
}

/// Value of a sequence of decimal digits.
pub open spec fn digits_value(s: Seq<char>) -> nat
    decreases s.len(),
{
    if s.len() == 0 {
        0
    } else {
        10 * digits_value(s.drop_last()) + digit_value(s.last())
    }
}

/// `s` without one leading `+`.
pub open spec fn unsigned_digits(s: Seq<char>) -> Seq<char> {
    if s.len() > 0 && s[0] == '+' {
        s.drop_first()
    } else {
        s
    }
}

/// What `str::parse::<usize>` gives: an optional `+`, then one or more
/// decimal digits whose value fits in `usize`.
pub open spec fn parse_usize_spec(s: Seq<char>) -> Option<usize> {
    let digits = unsigned_digits(s);
    if digits.len() == 0 || exists|i: int| 0 <= i < digits.len() && !is_digit(#[trigger] digits[i]) {
        None
    } else if digits_value(digits) > usize::MAX {
        None
    } else {
        Some(digits_value(digits) as usize)
    }
}

proof fn lemma_digits_value_grows(s: Seq<char>, c: char)
    requires
        is_digit(c),
    ensures
        digits_value(s.push(c)) == 10 * digits_value(s) + digit_value(c),
        digits_value(s.push(c)) >= digits_value(s),
{
    assert(s.push(c).drop_last() =~= s);
}

proof fn lemma_digits_value_prefix(s: Seq<char>, i: int)
    requires
        0 <= i <= s.len(),
        forall|k: int| 0 <= k < s.len() ==> is_digit(#[trigger] s[k]),
    ensures
        digits_value(s.take(i)) <= digits_value(s),
    decreases s.len() - i,
{
    if i < s.len() {
        lemma_digits_value_prefix(s, i + 1);
        assert(s.take(i + 1) =~= s.take(i).push(s[i]));
        lemma_digits_value_grows(s.take(i), s[i]);
    } else {
        assert(s.take(i) =~= s);
    }
}

/// Parses `s` as `str::parse::<usize>` does.
pub fn parse_usize(s: &[char]) -> (res: Option<usize>)
    ensures
        res == parse_usize_spec(s@),
{
    let start: usize = if s.len() > 0 && s[0] == '+' { 1 } else { 0 };
    let ghost digits = unsigned_digits(s@);
    proof {
        assert(digits =~= s@.subrange(start as int, s.len() as int));
    }
    if start == s.len() {
        return None;
    }
    let mut value: usize = 0;
    let mut i = start;
    while i < s.len()
        invariant
            start <= i <= s.len(),
            start < s.len(),
            digits == unsigned_digits(s@),
            digits =~= s@.subrange(start as int, s.len() as int),
            forall|k: int| start <= k < i ==> is_digit(#[trigger] s@[k]),
            value == digits_value(s@.subrange(start as int, i as int)),
        decreases s.len() - i,
    {
        let c = s[i];
        if !('0' <= c && c <= '9') {
            proof {
                assert(digits[i - start] == s@[i as int]);
                assert(!is_digit(c));
                assert(!is_digit(digits[i - start]));
                assert(exists|k: int| 0 <= k < digits.len() && !is_digit(#[trigger] digits[k]));
                assert(parse_usize_spec(s@) is None);
            }
            return None;
        }
        let d = (c as u32 - 0x30) as usize;
        proof {
            assert(s@.subrange(start as int, i + 1) =~= s@.subrange(start as int, i as int).push(c));
            lemma_digits_value_grows(s@.subrange(start as int, i as int), c);
        }
        match value.checked_mul(10) {
            None => {
                if exists_non_digit(s, i + 1) {
                    proof {
                        let k = choose|k: int| i + 1 <= k < s.len() && !is_digit(#[trigger] s@[k]);
                        assert(digits[k - start] == s@[k]);
                    }
                    return None;
                }
                proof {
                    lemma_digits_value_prefix(digits, i + 1 - start);
                    assert(digits.take(i + 1 - start) =~= s@.subrange(start as int, i + 1));
                }
                return None;
            },
            Some(m) => match m.checked_add(d) {
                None => {
                    if exists_non_digit(s, i + 1) {
                        proof {
                            let k = choose|k: int| i + 1 <= k < s.len() && !is_digit(#[trigger] s@[k]);
                            assert(digits[k - start] == s@[k]);
                        }
                        return None;
                    }
                    proof {
                        lemma_digits_value_prefix(digits, i + 1 - start);
                        assert(digits.take(i + 1 - start) =~= s@.subrange(start as int, i + 1));
                    }
                    return None;
                },
                Some(v) => {
                    value = v;
                },
            },
        }
        i = i + 1;
    }
    proof {
        assert(s@.subrange(start as int, s.len() as int) =~= digits);
    }
    Some(value)
}

/// One or more decimal digits whose value fits in `u64`.
pub open spec fn parse_u64_digits_spec(s: Seq<char>) -> Option<u64> {
    if s.len() == 0 || exists|i: int| 0 <= i < s.len() && !is_digit(#[trigger] s[i]) {
        None
    } else if digits_value(s) > u64::MAX {
        None
    } else {
        Some(digits_value(s) as u64)
    }
}

/// Parses `s` as one or more decimal digits whose value fits in `u64`.
fn parse_u64_digits(s: &[char]) -> (res: Option<u64>)
    ensures
        res == parse_u64_digits_spec(s@),
{
    let start: usize = 0;
    let ghost digits = s@;
    proof {
        assert(digits =~= s@.subrange(start as int, s.len() as int));
    }
    if start == s.len() {
        return None;
    }
    let mut value: u64 = 0;
    let mut i = start;
    while i < s.len()
        invariant
            start <= i <= s.len(),
            start < s.len(),
            digits == s@,
            digits =~= s@.subrange(start as int, s.len() as int),
            forall|k: int| start <= k < i ==> is_digit(#[trigger] s@[k]),
            value == digits_value(s@.subrange(start as int, i as int)),
        decreases s.len() - i,
    {
        let c = s[i];
        if !('0' <= c && c <= '9') {
            proof {
                assert(digits[i - start] == s@[i as int]);
                assert(!is_digit(c));
                assert(!is_digit(digits[i - start]));
                assert(exists|k: int| 0 <= k < digits.len() && !is_digit(#[trigger] digits[k]));
                assert(parse_u64_digits_spec(s@) is None);
            }
            return None;
        }
        let d = (c as u32 - 0x30) as u64;
        proof {
            assert(s@.subrange(start as int, i + 1) =~= s@.subrange(start as int, i as int).push(c));
            lemma_digits_value_grows(s@.subrange(start as int, i as int), c);
        }
        match value.checked_mul(10) {
            None => {
                if exists_non_digit(s, i + 1) {
                    proof {
                        let k = choose|k: int| i + 1 <= k < s.len() && !is_digit(#[trigger] s@[k]);
                        assert(digits[k - start] == s@[k]);
                    }
                    return None;
                }
                proof {
                    lemma_digits_value_prefix(digits, i + 1 - start);
                    assert(digits.take(i + 1 - start) =~= s@.subrange(start as int, i + 1));
                }
                return None;
            },
            Some(m) => match m.checked_add(d) {
                None => {
                    if exists_non_digit(s, i + 1) {
                        proof {
                            let k = choose|k: int| i + 1 <= k < s.len() && !is_digit(#[trigger] s@[k]);
                            assert(digits[k - start] == s@[k]);
                        }
                        return None;
                    }
                    proof {
                        lemma_digits_value_prefix(digits, i + 1 - start);
                        assert(digits.take(i + 1 - start) =~= s@.subrange(start as int, i + 1));
                    }
                    return None;
                },
                Some(v) => {
                    value = v;
                },
            },
        }
        i = i + 1;
    }
    proof {
        assert(s@.subrange(start as int, s.len() as int) =~= digits);
    }
    Some(value)
}

/// What `str::parse::<i64>` gives: an optional `+` or `-`, then one or
/// more decimal digits whose signed value fits in `i64`.
pub open spec fn parse_i64_spec(s: Seq<char>) -> Option<i64> {
    let neg = s.len() > 0 && s[0] == '-';
    let digits = if s.len() > 0 && (s[0] == '-' || s[0] == '+') { s.drop_first() } else { s };
    match parse_u64_digits_spec(digits) {
        None => None,
        Some(v) => if neg {
            if v > 0x8000_0000_0000_0000u64 { None } else { Some((-(v as int)) as i64) }
        } else {
            if v > i64::MAX as u64 { None } else { Some(v as i64) }
        },
    }
}

/// Parses `s` as `str::parse::<i64>` does.
pub fn parse_i64(s: &[char]) -> (res: Option<i64>)
    ensures
        res == parse_i64_spec(s@),
{
    let signed = s.len() > 0 && (s[0] == '-' || s[0] == '+');
    let neg = s.len() > 0 && s[0] == '-';
    let rest: Vec<char> = if signed { vstd::slice::slice_to_vec(vstd::slice::slice_subrange(s, 1, s.len())) } else { vstd::slice::slice_to_vec(s) };
    proof {
        if signed {
            assert(rest@ =~= s@.drop_first());
        }
    }
    match parse_u64_digits(rest.as_slice()) {
        None => None,
        Some(v) => {
            if neg {
                if v > 0x8000_0000_0000_0000u64 {
                    None
                } else if v == 0x8000_0000_0000_0000u64 {
                    Some(i64::MIN)
                } else {
                    Some(-(v as i64))
                }
            } else if v > 0x7fff_ffff_ffff_ffffu64 {
                None
            } else {
                Some(v as i64)
            }
        },
    }
}

/// Whether some character of `s` at or after `from` is not a decimal digit.
fn exists_non_digit(s: &[char], from: usize) -> (res: bool)
    requires
        from <= s.len(),
    ensures
        res == exists|k: int| from <= k < s.len() && !is_digit(#[trigger] s@[k]),
{
    let mut k = from;
    while k < s.len()
        invariant
            from <= k <= s.len(),
            forall|j: int| from <= j < k ==> is_digit(#[trigger] s@[j]),
        decreases s.len() - k,
    {
        if !('0' <= s[k] && s[k] <= '9') {
            return true;
        }
        k = k + 1;
    }
    false
}

/// Decimal digits of `n`.
pub open spec fn decimal_chars(n: nat) -> Seq<char>
    decreases n,
{
    if n < 10 {
        seq![(48 + n) as char]
    } else {
        decimal_chars(n / 10).push((48 + n % 10) as char)
    }
}

proof fn lemma_digit_char(d: nat)
    requires
        d < 10,
    ensures
        is_digit((48 + d) as char),
        digit_value((48 + d) as char) == d,
{
    if d == 0 { assert((48 + d) as char == '0'); }
    else if d == 1 { assert((48 + d) as char == '1'); }
    else if d == 2 { assert((48 + d) as char == '2'); }
    else if d == 3 { assert((48 + d) as char == '3'); }
    else if d == 4 { assert((48 + d) as char == '4'); }
    else if d == 5 { assert((48 + d) as char == '5'); }
    else if d == 6 { assert((48 + d) as char == '6'); }
    else if d == 7 { assert((48 + d) as char == '7'); }
    else if d == 8 { assert((48 + d) as char == '8'); }
    else { assert((48 + d) as char == '9'); }
}

/// The decimal form of `n` is one or more digits whose value is `n`.
pub proof fn lemma_decimal_chars_value(n: nat)
    ensures
        decimal_chars(n).len() > 0,
        forall|i: int| 0 <= i < decimal_chars(n).len() ==> is_digit(#[trigger] decimal_chars(n)[i]),
        digits_value(decimal_chars(n)) == n,
    decreases n,
{
    if n < 10 {
        lemma_digit_char(n);
        let s = decimal_chars(n);
        assert(s.drop_last() =~= Seq::<char>::empty());
        assert(s[0] == (48 + n) as char);
        assert(s.last() == s[0]);
        assert(digits_value(s.drop_last()) == 0);
    } else {
        lemma_decimal_chars_value(n / 10);
        lemma_digit_char(n % 10);
        let p = decimal_chars(n / 10);
        let c = (48 + n % 10) as char;
        assert(decimal_chars(n) == p.push(c));
        lemma_digits_value_grows(p, c);
        assert(n == 10 * (n / 10) + n % 10) by (nonlinear_arith);
        assert forall|i: int| 0 <= i < p.len() + 1 implies is_digit(#[trigger] p.push(c)[i]) by {
            if i < p.len() {
                assert(p.push(c)[i] == p[i]);
            }
        }
    }
}

/// Parsing the decimal form of a `usize`, with or without a leading `+`,
/// gives it back.
pub proof fn lemma_parse_usize_decimal(n: usize)
    ensures
        parse_usize_spec(decimal_chars(n as nat)) == Some(n),
        parse_usize_spec(seq!['+'] + decimal_chars(n as nat)) == Some(n),
{
    lemma_decimal_chars_value(n as nat);
    let d = decimal_chars(n as nat);
    assert(d[0] != '+') by {
        assert(is_digit(d[0]));
    }
    assert(unsigned_digits(d) == d);
    assert((seq!['+'] + d)[0] == '+');
    assert(unsigned_digits(seq!['+'] + d) =~= d);
}

/// Parsing the decimal form of an `i64` gives it back.
pub proof fn lemma_parse_i64_decimal(n: i64)
    ensures
        parse_i64_spec(signed_decimal_chars(n as int)) == Some(n),
{
    let m: nat = if n < 0 { (-(n as int)) as nat } else { n as nat };
    lemma_decimal_chars_value(m);
    let d = decimal_chars(m);
    assert(is_digit(d[0]));
    assert(m <= 0x8000_0000_0000_0000);
    if n < 0 {
        let s = seq!['-'] + d;
        assert(s == signed_decimal_chars(n as int));
        assert(s[0] == '-');
        assert(s.drop_first() =~= d);
        assert(parse_u64_digits_spec(d) == Some(m as u64));
    } else {
        assert(d == signed_decimal_chars(n as int));
        assert(d[0] != '-' && d[0] != '+');
        assert(parse_u64_digits_spec(d) == Some(m as u64));
    }
}

/// Decimal form of a signed integer: a `-` before the digits of a negative
/// value.
pub open spec fn signed_decimal_chars(n: int) -> Seq<char> {
    if n < 0 {
        seq!['-'] + decimal_chars((-n) as nat)
    } else {
        decimal_chars(n as nat)
    }
}

fn digit_char(d: u64) -> (res: char)
    requires
        d < 10,
    ensures
        res == (48 + d) as char,
{
    if d == 0 { '0' } else if d == 1 { '1' } else if d == 2 { '2' } else if d == 3 { '3' } else if d == 4 { '4' }
    else if d == 5 { '5' } else if d == 6 { '6' } else if d == 7 { '7' } else if d == 8 { '8' } else { '9' }
}

/// Appends the decimal digits of `n`.
pub fn push_u64(s: &mut String, n: u64)
    ensures
        final(s)@ == old(s)@ + decimal_chars(n as nat),
    decreases n,
{
    if n >= 10 {
        push_u64(s, n / 10);
    }
    push_char(s, digit_char(n % 10));
    proof {
        assert(final(s)@ =~= old(s)@ + decimal_chars(n as nat));
    }
}

/// Appends the decimal digits of `n`.
pub fn push_usize(s: &mut String, n: usize)
    ensures
        final(s)@ == old(s)@ + decimal_chars(n as nat),
{
    push_u64(s, n as u64);
}

/// Appends the decimal form of a signed integer.
pub fn push_i64(s: &mut String, n: i64)
    ensures
        final(s)@ == old(s)@ + signed_decimal_chars(n as int),
{
    if n < 0 {
        push_char(s, '-');
        let ghost mid = s@;
        let magnitude: u64 = if n == i64::MIN { 9223372036854775808u64 } else { (-n) as u64 };
        push_u64(s, magnitude);
        proof {
            assert(final(s)@ =~= old(s)@ + signed_decimal_chars(n as int));
        }
    } else {
        push_u64(s, n as u64);
    }
}

/// Decimal form of `n` as a new string.
pub fn usize_to_string(n: usize) -> (res: String)
    ensures
        res@ == decimal_chars(n as nat),
{
    let mut s = String::new();
    push_usize(&mut s, n);
    proof {
        assert(s@ =~= decimal_chars(n as nat));
    }
    s
}

/// Appends a string slice.
pub fn push_str(s: &mut String, t: &str)
    ensures
        final(s)@ == old(s)@ + t@,
{
    s.append(t);
}

/// `parts` joined with `sep` between consecutive parts.
pub open spec fn joined(parts: Seq<Seq<char>>, sep: Seq<char>) -> Seq<char>
    decreases parts.len(),
{
    if parts.len() == 0 {
        Seq::empty()
    } else if parts.len() == 1 {
        parts[0]
    } else {
        joined(parts.drop_last(), sep) + sep + parts.last()
    }
}

/// Characters of each string slice.
pub open spec fn str_views(v: Seq<&str>) -> Seq<Seq<char>> {
    v.map_values(|s: &str| s@)
}

/// Joins strings with a separator, as `[String]::join` does.
pub fn join_strings(parts: &[String], sep: &str) -> (res: String)
    ensures
        res@ == joined(string_views(parts@), sep@),
{
    let ghost views = string_views(parts@);
    let mut res = String::new();
    for k in 0..parts.len()
        invariant
            views == string_views(parts@),
            res@ == joined(views.take(k as int), sep@),
    {
        proof {
            assert(views.take(k + 1).drop_last() =~= views.take(k as int));
        }
        if k > 0 {
            push_str(&mut res, sep);
        }
        push_str(&mut res, parts[k].as_str());
        proof {
            if k == 0 {
                assert(res@ =~= joined(views.take(1), sep@));
            } else {
                assert(res@ =~= joined(views.take(k + 1), sep@));
            }
        }
    }
    proof {
        assert(views.take(parts.len() as int) =~= views);
    }
    res
}

/// Joins string slices with a separator, as `[&str]::join` does.
pub fn join_strs(parts: &[&str], sep: &str) -> (res: String)
    ensures
        res@ == joined(str_views(parts@), sep@),
{
    let ghost views = str_views(parts@);
    let mut res = String::new();
    for k in 0..parts.len()
        invariant
            views == str_views(parts@),
            res@ == joined(views.take(k as int), sep@),
    {
        proof {
            assert(views.take(k + 1).drop_last() =~= views.take(k as int));
        }
        if k > 0 {
            push_str(&mut res, sep);
        }
        push_str(&mut res, parts[k]);
        proof {
            if k == 0 {
                assert(res@ =~= joined(views.take(1), sep@));
            } else {
                assert(res@ =~= joined(views.take(k + 1), sep@));
            }
        }
    }
    proof {
        assert(views.take(parts.len() as int) =~= views);
    }
    res
}

} // verus!
