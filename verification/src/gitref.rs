//! Short display form of a git reference.
//!
//! A reference that is a full 40-digit hexadecimal commit hash is shown by
//! its first seven digits; any other reference (a branch, a tag, an
//! abbreviated hash) is shown as it stands.

use vstd::prelude::*;
use vstd::string::StrSliceExecFns;

verus! {

/// Whether a character is a hexadecimal digit: `0`-`9`, `A`-`F` or
/// `a`-`f`.
pub open spec fn spec_is_hex_digit_char(c: char) -> bool {
    ('0' <= c && c <= '9') || ('A' <= c && c <= 'F') || ('a' <= c && c <= 'f')
}

/// Whether a reference is a full commit hash: exactly 40 characters, all
/// hexadecimal digits.
pub open spec fn spec_is_full_hash(s: Seq<char>) -> bool {
    &&& s.len() == 40
    &&& forall|i: int| 0 <= i < s.len() ==> spec_is_hex_digit_char(#[trigger] s[i])
}

/// Shortens a full 40-digit hexadecimal commit hash to its first seven
/// digits; returns any other reference unchanged.
pub fn get_short_reference<'a>(reference: &'a str) -> (r: &'a str)
    ensures
        r@ == if spec_is_full_hash(reference@) {
            reference@.subrange(0, 7)
        } else {
            reference@
        },
{
    if !reference.is_ascii() {
        proof {
            let s = reference@;
            let i = choose|i: int| 0 <= i < s.len() && !('\0' <= #[trigger] s[i] <= '\u{7f}');
            assert(!spec_is_hex_digit_char(s[i]));
        }
        return reference;
    }
    let n = reference.unicode_len();
    if n != 40 {
        return reference;
    }
    let mut i: usize = 0;
    while i < n
        invariant
            i <= n,
            n == reference@.len(),
            n == 40,
            reference.is_ascii(),
            forall|j: int| 0 <= j < i ==> spec_is_hex_digit_char(#[trigger] reference@[j]),
        decreases n - i,
    {
        let c = reference.get_char(i);
        let v = c as u32;
        let is_hex = (48 <= v && v <= 57) || (65 <= v && v <= 70) || (97 <= v && v <= 102);
        if !is_hex {
            return reference;
        }
        i += 1;
    }
    reference.substring_ascii(0, 7)
}

} // verus!
