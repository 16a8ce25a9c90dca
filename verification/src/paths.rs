//! Slash-separated path strings.

use vstd::prelude::*;
use crate::text::{chars_of, push_char, push_str};

verus! {

/// `base` extended by `part` as `PathBuf::push` does with `/` separators:
/// an absolute `part` replaces `base`; otherwise one `/` separates them
/// unless `base` is empty or already ends with one.
pub open spec fn join_spec(base: Seq<char>, part: Seq<char>) -> Seq<char> {
    if part.len() > 0 && part[0] == '/' {
        part
    } else if base.len() == 0 || base.last() == '/' {
        base + part
    } else {
        base + seq!['/'] + part
    }
}

/// Joins a path component onto a base path.
pub fn path_join(base: &str, part: &str) -> (res: String)
    ensures
        res@ == join_spec(base@, part@),
{
    let b = chars_of(base);
    let p = chars_of(part);
    if p.len() > 0 && p[0] == '/' {
        return String::from_str(part);
    }
    let mut res = String::from_str(base);
    if !(b.len() == 0 || b[b.len() - 1] == '/') {
        push_char(&mut res, '/');
    }
    push_str(&mut res, part);
    res
}

} // verus!
