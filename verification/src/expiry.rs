//! Expiry timestamps embedded in upstream resource URLs.
//!
//! The CDN links that the cache stores carry their own lifetime: an `ex`
//! query parameter whose value is a hexadecimal UNIX timestamp.  This module
//! reads that parameter straight out of the URL text: the query component is
//! everything after the first `?` up to a following `#`, split into
//! `&`-separated pairs, a pair's key standing before its first `=`.  The
//! first pair keyed `ex` decides; its value must be non-empty hexadecimal
//! whose value fits in 64 bits.

use vstd::prelude::*;
use vstd::slice::slice_subrange;

verus! {

/// ASCII `?`, which begins a URL's query component.
pub const QUESTION_MARK: u8 = 63;

/// ASCII `#`, which begins a URL's fragment component.
pub const HASH_SIGN: u8 = 35;

/// ASCII `&`, which separates query pairs.
pub const AMPERSAND: u8 = 38;

/// ASCII `=`, which separates a pair's key from its value.
pub const EQUALS_SIGN: u8 = 61;

/// The numeric value of one hexadecimal digit byte: `0`-`9`, `A`-`F` or
/// `a`-`f` in ASCII.
pub open spec fn spec_hex_digit(b: u8) -> Option<u64> {
    if 48 <= b && b <= 57 {
        Some((b - 48) as u64)
    } else if 65 <= b && b <= 70 {
        Some((b - 65 + 10) as u64)
    } else if 97 <= b && b <= 102 {
        Some((b - 97 + 10) as u64)
    } else {
        None
    }
}

/// Left-to-right hexadecimal evaluation of `s` starting from `acc`; `None`
/// on a non-digit byte or once the value no longer fits in 64 bits.
pub open spec fn spec_hex_rec(s: Seq<u8>, acc: u64) -> Option<u64>
    decreases s.len(),
{
    if s.len() == 0 {
        Some(acc)
    } else {
        match spec_hex_digit(s[0]) {
            Some(d) => if 16 * acc + d <= u64::MAX {
                spec_hex_rec(s.drop_first(), (16 * acc + d) as u64)
            } else {
                None
            },
            None => None,
        }
    }
}

/// The value of a hexadecimal byte string: at least one digit, digits only,
/// and a value that fits in 64 bits.
pub open spec fn spec_hex_value(s: Seq<u8>) -> Option<u64> {
    if s.len() == 0 {
        None
    } else {
        spec_hex_rec(s, 0)
    }
}

/// Index of the first occurrence of `t` in `s`, or `s.len()` if there is
/// none.
pub open spec fn spec_find_byte(s: Seq<u8>, t: u8) -> int
    decreases s.len(),
{
    if s.len() == 0 {
        0
    } else if s[0] == t {
        0
    } else {
        1 + spec_find_byte(s.drop_first(), t)
    }
}

/// `spec_find_byte` lands in bounds, on an occurrence of `t` if there is
/// one, and nothing before it is an occurrence.
pub proof fn lemma_find_byte_props(s: Seq<u8>, t: u8)
    ensures
        0 <= spec_find_byte(s, t) <= s.len(),
        forall|j: int| 0 <= j < spec_find_byte(s, t) ==> s[j] != t,
        spec_find_byte(s, t) < s.len() ==> s[spec_find_byte(s, t)] == t,
    decreases s.len(),
{
    if s.len() != 0 && s[0] != t {
        lemma_find_byte_props(s.drop_first(), t);
        assert forall|j: int| 0 <= j < spec_find_byte(s, t) implies s[j] != t by {
            if j > 0 {
                assert(s.drop_first()[j - 1] == s[j]);
            }
        }
    }
}

/// The query component of a URL: the bytes after the first `?`, up to the
/// `#` that begins the fragment.  `None` where the URL has no `?`, or where
/// the first `?` stands inside the fragment.
pub open spec fn spec_query_of(url: Seq<u8>) -> Option<Seq<u8>> {
    let q = spec_find_byte(url, QUESTION_MARK);
    let h = spec_find_byte(url, HASH_SIGN);
    if q == url.len() || h < q {
        None
    } else {
        let rest = url.subrange(q + 1, url.len() as int);
        Some(rest.subrange(0, spec_find_byte(rest, HASH_SIGN)))
    }
}

/// The key under which an upstream URL carries its expiry: `ex` in ASCII.
pub open spec fn spec_expiry_key() -> Seq<u8> {
    seq![101u8, 120u8]
}

/// The value of the first `&`-separated pair of `q` whose key (the part
/// before its first `=`) equals `key`; a pair without `=` has an empty
/// value.  `None` where no pair matches.
pub open spec fn spec_find_param(q: Seq<u8>, key: Seq<u8>) -> Option<Seq<u8>>
    decreases q.len(),
    via spec_find_param_decreases
{
    let pair_end = spec_find_byte(q, AMPERSAND);
    let pair = q.subrange(0, pair_end);
    let eq = spec_find_byte(pair, EQUALS_SIGN);
    if pair.subrange(0, eq) == key {
        Some(
            if eq == pair.len() {
                Seq::empty()
            } else {
                pair.subrange(eq + 1, pair.len() as int)
            },
        )
    } else if pair_end == q.len() {
        None
    } else {
        spec_find_param(q.subrange(pair_end + 1, q.len() as int), key)
    }
}

#[via_fn]
proof fn spec_find_param_decreases(q: Seq<u8>, key: Seq<u8>) {
    lemma_find_byte_props(q, AMPERSAND);
}

/// The expiry timestamp a URL carries: the hexadecimal value of its first
/// `ex` query parameter.  `None` where the URL has no query, no `ex`
/// parameter, or a value that is not 64-bit hexadecimal.
pub open spec fn spec_embedded_expiry(url: Seq<u8>) -> Option<u64> {
    match spec_query_of(url) {
        None => None,
        Some(q) => match spec_find_param(q, spec_expiry_key()) {
            None => None,
            Some(v) => spec_hex_value(v),
        },
    }
}

/// Index of the first occurrence of `t` in `s`, or `s.len()` if there is
/// none.
pub fn find_byte(s: &[u8], t: u8) -> (r: usize)
    ensures
        r == spec_find_byte(s@, t),
{
    proof {
        lemma_find_byte_props(s@, t);
    }
    let n = s.len();
    let mut i: usize = 0;
    while i < n
        invariant
            i <= n,
            n == s@.len(),
            forall|j: int| 0 <= j < i ==> s@[j] != t,
        decreases n - i,
    {
        if s[i] == t {
            proof {
                lemma_find_byte_props(s@, t);
            }
            return i;
        }
        i += 1;
    }
    proof {
        lemma_find_byte_props(s@, t);
    }
    i
}

/// The value of a hexadecimal byte string, if it is one.
pub fn hex_value(s: &[u8]) -> (r: Option<u64>)
    ensures
        r == spec_hex_value(s@),
{
    let n = s.len();
    if n == 0 {
        return None;
    }
    let mut acc: u64 = 0;
    let mut i: usize = 0;
    proof {
        assert(s@.subrange(0, n as int) =~= s@);
    }
    while i < n
        invariant
            i <= n,
            n == s@.len(),
            n > 0,
            spec_hex_rec(s@, 0) == spec_hex_rec(s@.subrange(i as int, n as int), acc),
        decreases n - i,
    {
        proof {
            assert(s@.subrange(i as int, n as int)[0] == s@[i as int]);
            assert(s@.subrange(i as int, n as int).drop_first() =~= s@.subrange(
                i as int + 1,
                n as int,
            ));
        }
        let b = s[i];
        let d: u64 = if 48 <= b && b <= 57 {
            (b - 48) as u64
        } else if 65 <= b && b <= 70 {
            (b - 65) as u64 + 10
        } else if 97 <= b && b <= 102 {
            (b - 97) as u64 + 10
        } else {
            return None;
        };
        let wide: u128 = 16 * (acc as u128) + (d as u128);
        if wide > u64::MAX as u128 {
            return None;
        }
        acc = wide as u64;
        i += 1;
    }
    proof {
        assert(s@.subrange(n as int, n as int) =~= Seq::<u8>::empty());
    }
    Some(acc)
}

/// The expiry timestamp a URL carries in its first `ex` query parameter.
pub fn embedded_expiry(url: &[u8]) -> (r: Option<u64>)
    ensures
        r == spec_embedded_expiry(url@),
{
    let qmark = find_byte(url, QUESTION_MARK);
    let hash = find_byte(url, HASH_SIGN);
    proof {
        lemma_find_byte_props(url@, QUESTION_MARK);
        lemma_find_byte_props(url@, HASH_SIGN);
    }
    if qmark == url.len() || hash < qmark {
        return None;
    }
    let rest = slice_subrange(url, qmark + 1, url.len());
    let qend = find_byte(rest, HASH_SIGN);
    proof {
        lemma_find_byte_props(rest@, HASH_SIGN);
    }
    let query = slice_subrange(rest, 0, qend);
    let ghost full_query = query@;
    let mut rem: &[u8] = query;
    loop
        invariant
            spec_find_param(rem@, spec_expiry_key()) == spec_find_param(
                full_query,
                spec_expiry_key(),
            ),
            spec_query_of(url@) == Some(full_query),
        decreases rem@.len(),
    {
        let pair_end = find_byte(rem, AMPERSAND);
        proof {
            lemma_find_byte_props(rem@, AMPERSAND);
        }
        let pair = slice_subrange(rem, 0, pair_end);
        let eq = find_byte(pair, EQUALS_SIGN);
        proof {
            lemma_find_byte_props(pair@, EQUALS_SIGN);
        }
        // The pair matches when its key is exactly `ex` (ASCII 101, 120).
        let is_ex = eq == 2 && pair[0] == 101 && pair[1] == 120;
        proof {
            let key = spec_expiry_key();
            let pkey = pair@.subrange(0, eq as int);
            assert(key.len() == 2 && key[0] == 101 && key[1] == 120);
            if is_ex {
                assert(pkey =~= key);
            } else {
                assert(pkey != key) by {
                    if pkey == key {
                        assert(pkey.len() == 2);
                        assert(pkey[0] == pair@[0] && pkey[1] == pair@[1]);
                    }
                }
            }
        }
        if is_ex {
            let value = if eq == pair.len() {
                slice_subrange(pair, 0, 0)
            } else {
                slice_subrange(pair, eq + 1, pair.len())
            };
            proof {
                if eq == pair@.len() {
                    assert(value@ =~= Seq::<u8>::empty());
                }
            }
            return hex_value(value);
        } else if pair_end == rem.len() {
            return None;
        }
        rem = slice_subrange(rem, pair_end + 1, rem.len());
    }
}

} // verus!
