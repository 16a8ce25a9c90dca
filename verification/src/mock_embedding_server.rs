//! Hashing side of the deterministic mock embedding service: every
//! white-space separated token of a text falls into one of the embedding
//! dimensions by a stable FNV-1a hash of its lower-cased UTF-8 bytes.

use vstd::prelude::*;
use vstd::string::StringSliceAdditionalSpecFns;
use vstd::utf8::encode_utf8;
use crate::text::{is_white_space, is_whitespace, push_char};

verus! {

/// Deterministic embedding dimension (matches the mock embedding config).
pub const MOCK_EMBEDDING_DIMENSION: usize = 384;

/// FNV-1a 64-bit hash of a byte sequence.
pub open spec fn fnv1a_spec(bytes: Seq<u8>) -> u64
    decreases bytes.len(),
{
    if bytes.len() == 0 {
        0xcbf29ce484222325u64
    } else {
        (fnv1a_spec(bytes.drop_last()) ^ (bytes.last() as u64)).wrapping_mul(0x100000001b3u64)
    }
}

/// FNV-1a 64-bit hash (deterministic across runs and processes).
pub fn fnv1a(bytes: &[u8]) -> (res: u64)
    ensures
        res == fnv1a_spec(bytes@),
{
    let mut hash: u64 = 0xcbf29ce484222325;
    let mut i: usize = 0;
    while i < bytes.len()
        invariant
            i <= bytes.len(),
            hash == fnv1a_spec(bytes@.take(i as int)),
        decreases bytes.len() - i,
    {
        proof {
            assert(bytes@.take(i + 1).drop_last() =~= bytes@.take(i as int));
        }
        hash = hash ^ (bytes[i] as u64);
        hash = hash.wrapping_mul(0x100000001b3);
        i = i + 1;
    }
    proof {
        assert(bytes@.take(bytes.len() as int) =~= bytes@);
    }
    hash
}

/// Tokens still to come in `s` when the current unfinished token is `cur`.
pub open spec fn words_after(s: Seq<char>, cur: Seq<char>) -> Seq<Seq<char>>
    decreases s.len(),
{
    if s.len() == 0 {
        if cur.len() == 0 {
            Seq::empty()
        } else {
            seq![cur]
        }
    } else if is_white_space(s[0]) {
        (if cur.len() == 0 {
            Seq::empty()
        } else {
            seq![cur]
        }) + words_after(s.drop_first(), Seq::empty())
    } else {
        words_after(s.drop_first(), cur.push(s[0]))
    }
}

/// The maximal runs of non-white-space characters of `s`, in order, as
/// `str::split_whitespace` yields them.
pub open spec fn words_of(s: Seq<char>) -> Seq<Seq<char>> {
    words_after(s, Seq::empty())
}

/// Lower-case form of a string (full Unicode case mapping).
pub uninterp spec fn lowercase_chars(s: Seq<char>) -> Seq<char>;

/// Lower-cases a string.
///
/// Trusted: `str::to_lowercase`. The contract only names the result: the
/// Unicode case mapping is not restated here.
#[verifier::external_body]
pub(crate) fn to_lowercase(s: &str) -> (res: String)
    ensures
        res@ == lowercase_chars(s@),
{
    s.to_lowercase()
}

/// Embedding dimension a token falls into.
pub open spec fn token_bucket(word: Seq<char>) -> usize {
    ((fnv1a_spec(encode_utf8(lowercase_chars(word))) as usize) % MOCK_EMBEDDING_DIMENSION) as usize
}

/// `token_bucket` as a function value.
pub open spec fn bucket_fn() -> spec_fn(Seq<char>) -> usize {
    |w: Seq<char>| token_bucket(w)
}

/// Dimension of one token.
fn bucket_of(word: &String) -> (res: usize)
    ensures
        res == token_bucket(word@),
{
    let lower = to_lowercase(word.as_str());
    let bytes = lower.as_str().as_bytes();
    let hash = fnv1a(bytes);
    (hash as usize) % MOCK_EMBEDDING_DIMENSION
}

/// The embedding dimension of every white-space separated token of `text`,
/// in order: the FNV-1a hash of the token's lower-cased UTF-8 bytes, modulo
/// the dimension.
pub fn token_buckets(text: &str) -> (res: Vec<usize>)
    ensures
        res@ == words_of(text@).map_values(bucket_fn()),
{
    let mut res: Vec<usize> = Vec::new();
    let mut cur = String::new();
    let mut in_word = false;
    let ghost mut k: int = 0;
    proof {
        assert(text@.skip(0) =~= text@);
    }
    for c in it: text.chars()
        invariant
            it.seq() == text@,
            k == it.index(),
            in_word == (cur@.len() > 0),
            res@ + words_after(text@.skip(k), cur@).map_values(bucket_fn())
                == words_of(text@).map_values(bucket_fn()),
    {
        let ghost rest = text@.skip(k);
        let ghost before = res@;
        let ghost old_cur = cur@;
        let ghost next = text@.skip(k + 1);
        proof {
            assert(rest[0] == c);
            assert(rest.drop_first() =~= next);
        }
        if is_whitespace(c) {
            proof {
                assert(words_after(rest, old_cur) == (if old_cur.len() == 0 { Seq::empty() } else { seq![old_cur] })
                    + words_after(next, Seq::empty()));
            }
            if in_word {
                let b = bucket_of(&cur);
                res.push(b);
                proof {
                    let tail = words_after(next, Seq::empty());
                    assert((seq![old_cur] + tail).map_values(bucket_fn())
                        =~= seq![b] + tail.map_values(bucket_fn()));
                    assert(res@ + tail.map_values(bucket_fn()) =~= before + (seq![b] + tail.map_values(bucket_fn())));
                }
                cur = String::new();
                in_word = false;
            } else {
                proof {
                    assert(old_cur =~= Seq::<char>::empty());
                    assert(Seq::<Seq<char>>::empty() + words_after(next, Seq::empty()) =~= words_after(next, Seq::empty()));
                }
            }
        } else {
            proof {
                assert(words_after(rest, old_cur) == words_after(next, old_cur.push(c)));
            }
            push_char(&mut cur, c);
            in_word = true;
        }
        proof {
            k = k + 1;
        }
    }
    if in_word {
        let ghost w = cur@;
        let b = bucket_of(&cur);
        res.push(b);
        proof {
            assert(text@.skip(k).len() == 0);
            assert(seq![w].map_values(bucket_fn()) =~= seq![b]);
        }
    } else {
        proof {
            assert(text@.skip(k).len() == 0);
            assert(res@ + Seq::<usize>::empty() =~= res@);
        }
    }
    res
}

/// Number of white-space separated tokens of `text`.
pub fn whitespace_token_count(text: &str) -> (res: usize)
    ensures
        res == words_of(text@).len(),
{
    let buckets = token_buckets(text);
    buckets.len()
}

} // verus!
