//! Verified character-level string operations: exact equality, and the
//! ASCII upper-casing comparison used when grade codes are resolved.

use vstd::prelude::*;
use vstd::string::StrSliceExecFns;

verus! {

/// The code point of `c` after ASCII upper-casing: the letters `a` to
/// `z` (code points 97 to 122) map to `A` to `Z` (65 to 90), every
/// other character is left as it is.
pub open spec fn upper_char_val(c: char) -> u32 {
    if 97 <= c as u32 && c as u32 <= 122 {
        ((c as u32) - 32) as u32
    } else {
        c as u32
    }
}

/// The code points of a string's characters, in order.
pub open spec fn char_vals(s: Seq<char>) -> Seq<u32> {
    Seq::new(s.len(), |i: int| s[i] as u32)
}

/// The code points after ASCII upper-casing every character.
pub open spec fn upper_vals(s: Seq<char>) -> Seq<u32> {
    Seq::new(s.len(), |i: int| upper_char_val(s[i]))
}

/// `a`, once ASCII upper-cased, spells exactly `b`.
pub open spec fn upper_matches(a: Seq<char>, b: Seq<char>) -> bool {
    upper_vals(a) == char_vals(b)
}

/// A copy of an optional string, equal in value to the original.
pub fn clone_opt_string(o: &Option<String>) -> (r: Option<String>)
    ensures
        r == *o,
{
    match o {
        Some(s) => Some(s.clone()),
        None => None,
    }
}

/// Character-for-character equality of two strings.
pub fn str_eq(a: &str, b: &str) -> (r: bool)
    ensures
        r == (a@ == b@),
{
    let an = a.unicode_len();
    if an != b.unicode_len() {
        proof {
            assert(a@.len() != b@.len());
        }
        return false;
    }
    let mut i: usize = 0;
    while i < an
        invariant
            i <= an,
            an == a@.len(),
            an == b@.len(),
            forall|j: int| 0 <= j < i ==> a@[j] == b@[j],
        decreases an - i,
    {
        if a.get_char(i) != b.get_char(i) {
            return false;
        }
        i = i + 1;
    }
    proof {
        assert(a@ =~= b@);
    }
    true
}

/// Does `a`, ASCII upper-cased, equal `b` exactly?  Grade codes coming
/// from the course room may be lower-case while the registry stores
/// them upper-case; this is the normalized comparison between the two.
pub fn eq_upper(a: &str, b: &str) -> (r: bool)
    ensures
        r == upper_matches(a@, b@),
{
    let an = a.unicode_len();
    if an != b.unicode_len() {
        proof {
            assert(upper_vals(a@).len() != char_vals(b@).len());
        }
        return false;
    }
    let mut i: usize = 0;
    while i < an
        invariant
            i <= an,
            an == a@.len(),
            an == b@.len(),
            forall|j: int| 0 <= j < i ==> upper_char_val(a@[j]) == b@[j] as u32,
        decreases an - i,
    {
        let ca = a.get_char(i) as u32;
        let cb = b.get_char(i) as u32;
        let ua = if 97 <= ca && ca <= 122 {
            ca - 32
        } else {
            ca
        };
        if ua != cb {
            proof {
                assert(upper_vals(a@)[i as int] != char_vals(b@)[i as int]);
            }
            return false;
        }
        i = i + 1;
    }
    proof {
        assert(upper_vals(a@) =~= char_vals(b@));
    }
    true
}

} // verus!
