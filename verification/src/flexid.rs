//! The flexible identifier decoder.  The registry serializes small
//! positive integer identifiers sometimes as a bare number and sometimes
//! as a quoted numeric string; both shapes must decode to the same
//! identifier, zero and everything else is rejected.

use vstd::prelude::*;
use vstd::string::StrSliceExecFns;

verus! {

/// A scalar value of unknown on-the-wire shape, as it arrives from the
/// registry's JSON producers.  Numbers that are not non-negative
/// integers, and composite values (objects, arrays, null), are all
/// `Other`: no identifier can be read from them.
#[derive(Clone, Debug, PartialEq)]
pub enum Scalar {
    Nat(u64),
    Text(String),
    Bool(bool),
    Other,
}

/// Why a scalar could not be decoded into an identifier.
#[derive(Clone, Copy, Debug, PartialEq, Eq, Structural)]
pub enum DecodeError {
    /// The value was zero, which is never a valid identifier.
    Zero,
    /// A number too large for an identifier.
    Overflow,
    /// Text that does not spell a decimal number.
    NotNumeric,
    /// A boolean or composite value.
    UnsupportedShape,
}

/// Is `c` a decimal digit?
pub open spec fn is_digit(c: char) -> bool {
    48 <= c as u32 && c as u32 <= 57
}

/// The numeric value of the digit `c`.
pub open spec fn digit_val(c: char) -> int {
    c as u32 - 48
}

/// The value of a digit string read in base ten.
pub open spec fn digits_val(s: Seq<char>) -> int
    decreases s.len(),
{
    if s.len() == 0 {
        0
    } else {
        digits_val(s.drop_last()) * 10 + digit_val(s.last())
    }
}

/// Is every character of `s` a decimal digit?
pub open spec fn all_digits(s: Seq<char>) -> bool {
    forall|i: int| 0 <= i < s.len() ==> is_digit(s[i])
}

/// What `s` parses to as a `u32`: an optional leading `+`, then one or
/// more decimal digits, whose value fits in 32 bits; `None` otherwise.
pub open spec fn parse_u32(s: Seq<char>) -> Option<u32> {
    let t = if s.len() > 0 && s[0] == '+' {
        s.drop_first()
    } else {
        s
    };
    if t.len() > 0 && all_digits(t) && digits_val(t) <= u32::MAX {
        Some(digits_val(t) as u32)
    } else {
        None
    }
}

proof fn lemma_digits_val_nonneg(s: Seq<char>)
    requires
        all_digits(s),
    ensures
        digits_val(s) >= 0,
    decreases s.len(),
{
    if s.len() > 0 {
        lemma_digits_val_nonneg(s.drop_last());
    }
}

/// Reading more digits can only grow the value.
proof fn lemma_digits_prefix_le(s: Seq<char>, k: int)
    requires
        all_digits(s),
        0 <= k <= s.len(),
    ensures
        digits_val(s.subrange(0, k)) <= digits_val(s),
    decreases s.len() - k,
{
    if k == s.len() {
        assert(s.subrange(0, k) =~= s);
    } else {
        let p = s.subrange(0, k);
        let q = s.subrange(0, k + 1);
        assert(q.drop_last() =~= p);
        assert(all_digits(p));
        lemma_digits_val_nonneg(p);
        assert(digits_val(q) == digits_val(p) * 10 + digit_val(q.last()));
        assert(digits_val(p) <= digits_val(q));
        lemma_digits_prefix_le(s, k + 1);
    }
}

/// Parse `s` as a 32-bit decimal number, exactly as [`parse_u32`] says.
pub fn parse_u32_exec(s: &str) -> (r: Option<u32>)
    ensures
        r == parse_u32(s@),
{
    let n = s.unicode_len();
    let start: usize = if n > 0 && s.get_char(0) == '+' {
        1
    } else {
        0
    };
    let ghost t: Seq<char> = if s@.len() > 0 && s@[0] == '+' {
        s@.drop_first()
    } else {
        s@
    };
    proof {
        assert(t.len() == n - start);
        assert(forall|j: int| 0 <= j < t.len() ==> t[j] == s@[j + start]);
    }
    if n == start {
        return None;
    }
    let mut acc: u32 = 0;
    let mut i: usize = start;
    while i < n
        invariant
            start <= i <= n,
            n == s@.len(),
            (start == 1) == (s@.len() > 0 && s@[0] == '+'),
            start <= 1,
            t == (if s@.len() > 0 && s@[0] == '+' {
                s@.drop_first()
            } else {
                s@
            }),
            t.len() == n - start,
            forall|j: int| 0 <= j < t.len() ==> t[j] == s@[j + start],
            forall|j: int| 0 <= j < i - start ==> is_digit(t[j]),
            acc == digits_val(t.subrange(0, i - start)),
        decreases n - i,
    {
        let c = s.get_char(i) as u32;
        if c < 48 || c > 57 {
            proof {
                assert(!is_digit(t[i - start]));
                assert(!all_digits(t));
            }
            return None;
        }
        let d = c - 48;
        proof {
            assert(t.subrange(0, i - start + 1).drop_last() =~= t.subrange(0, i - start));
            assert(t.subrange(0, i - start + 1).last() == t[i - start]);
        }
        if acc > (u32::MAX - d) / 10 {
            proof {
                let p = t.subrange(0, i - start + 1);
                assert(digits_val(p) == acc * 10 + d);
                assert(digits_val(p) > u32::MAX) by {
                    assert(acc >= (u32::MAX - d) / 10 + 1);
                    assert(acc * 10 >= ((u32::MAX - d) / 10 + 1) * 10) by (nonlinear_arith)
                        requires
                            acc >= (u32::MAX - d) / 10 + 1,
                    ;
                    assert(((u32::MAX - d) / 10 + 1) * 10 > u32::MAX - d);
                }
                if all_digits(t) {
                    lemma_digits_prefix_le(t, i - start + 1);
                }
            }
            return None;
        }
        acc = acc * 10 + d;
        i = i + 1;
    }
    proof {
        assert(t.subrange(0, t.len() as int) =~= t);
        assert(all_digits(t));
    }
    Some(acc)
}

/// What decoding a scalar yields: the identifier for a positive number
/// of at most 32 bits, whether written bare or as text, and the exact
/// error otherwise.
pub open spec fn decode_spec(v: Scalar) -> Result<u32, DecodeError> {
    match v {
        Scalar::Nat(n) => if n > u32::MAX as u64 {
            Err(DecodeError::Overflow)
        } else if n == 0 {
            Err(DecodeError::Zero)
        } else {
            Ok(n as u32)
        },
        Scalar::Text(s) => match parse_u32(s@) {
            Some(n) => if n == 0 {
                Err(DecodeError::Zero)
            } else {
                Ok(n)
            },
            None => Err(DecodeError::NotNumeric),
        },
        Scalar::Bool(_) => Err(DecodeError::UnsupportedShape),
        Scalar::Other => Err(DecodeError::UnsupportedShape),
    }
}

/// Decode a scalar of unknown shape into a strictly positive identifier.
pub fn decode_flexible_id(v: &Scalar) -> (r: Result<u32, DecodeError>)
    ensures
        r == decode_spec(*v),
        r matches Ok(n) ==> n > 0,
{
    match v {
        Scalar::Nat(n) => {
            if *n > u32::MAX as u64 {
                Err(DecodeError::Overflow)
            } else if *n == 0 {
                Err(DecodeError::Zero)
            } else {
                Ok(*n as u32)
            }
        },
        Scalar::Text(s) => {
            match parse_u32_exec(s.as_str()) {
                Some(n) => if n == 0 {
                    Err(DecodeError::Zero)
                } else {
                    Ok(n)
                },
                None => Err(DecodeError::NotNumeric),
            }
        },
        Scalar::Bool(_) => Err(DecodeError::UnsupportedShape),
        Scalar::Other => Err(DecodeError::UnsupportedShape),
    }
}

} // verus!
