//! Decimal parsing of port numbers, as the environment hands them over:
//! an optional leading `+`, then one or more ASCII digits, and the value
//! must fit in a `u16`. Anything else is rejected.

use vstd::prelude::*;

verus! {

/// Is `c` an ASCII decimal digit?
pub open spec fn is_digit(c: char) -> bool {
    '0' <= c && c <= '9'
}

/// Numeric value of a digit character.
pub open spec fn digit_val(c: char) -> nat {
    (c as nat - '0' as nat) as nat
}

/// The digit part of a decimal string: a single leading `+` is skipped.
pub open spec fn digits_of(s: Seq<char>) -> Seq<char> {
    if s.len() > 0 && s[0] == '+' {
        s.drop_first()
    } else {
        s
    }
}

/// Every character of `s` is a digit.
pub open spec fn all_digits(s: Seq<char>) -> bool {
    forall|i: int| 0 <= i < s.len() ==> is_digit(#[trigger] s[i])
}

/// Value of the first `n` characters of a digit string, most significant
/// digit first.
pub open spec fn prefix_value(s: Seq<char>, n: int) -> nat
    decreases n,
{
    if n <= 0 {
        0
    } else {
        prefix_value(s, n - 1) * 10 + digit_val(s[n - 1])
    }
}

/// Value of a whole digit string.
pub open spec fn digits_value(s: Seq<char>) -> nat {
    prefix_value(s, s.len() as int)
}

/// What parsing a decimal `u16` yields: the digit part must be non-empty,
/// all digits, and its value at most `u16::MAX`.
pub open spec fn spec_parse_u16(s: Seq<char>) -> Option<u16> {
    let d = digits_of(s);
    if d.len() > 0 && all_digits(d) && digits_value(d) <= u16::MAX {
        Some(digits_value(d) as u16)
    } else {
        None
    }
}

/// A longer prefix of a digit string never has a smaller value.
proof fn lemma_prefix_value_monotone(s: Seq<char>, n: int, m: int)
    requires
        0 <= n <= m <= s.len(),
    ensures
        prefix_value(s, n) <= prefix_value(s, m),
    decreases m - n,
{
    if n < m {
        lemma_prefix_value_monotone(s, n, m - 1);
        assert(prefix_value(s, m) == prefix_value(s, m - 1) * 10 + digit_val(s[m - 1]));
        assert(prefix_value(s, m - 1) * 10 >= prefix_value(s, m - 1) * 1) by (nonlinear_arith);
    }
}

/// Parse a decimal `u16`, with the same acceptance rule as the standard
/// decimal parser for unsigned integers: optional `+`, then digits, value
/// in range.
pub fn parse_u16(s: &str) -> (r: Option<u16>)
    ensures
        r == spec_parse_u16(s@),
{
    let len = s.unicode_len();
    let mut start: usize = 0;
    if len > 0 && s.get_char(0) == '+' {
        start = 1;
    }
    proof {
        assert(digits_of(s@) =~= s@.subrange(start as int, len as int));
    }
    if start == len {
        return None;
    }
    let ghost d = digits_of(s@);
    let mut i: usize = start;
    let mut acc: u32 = 0;
    while i < len
        invariant
            start <= i <= len,
            len == s@.len(),
            start == 0 || start == 1,
            d == digits_of(s@),
            d =~= s@.subrange(start as int, len as int),
            all_digits(s@.subrange(start as int, i as int)),
            acc == prefix_value(d, i - start),
            acc <= u16::MAX,
        decreases len - i,
    {
        let c = s.get_char(i);
        if c < '0' || c > '9' {
            proof {
                assert(d[i - start] == s@[i as int]);
                assert(!is_digit(d[i - start]));
                assert(!all_digits(d));
            }
            return None;
        }
        let digit: u32 = (c as u32) - ('0' as u32);
        let next: u32 = acc * 10 + digit;
        proof {
            assert(d[i - start] == s@[i as int]);
            assert(digit == digit_val(d[i - start]));
            assert(s@.subrange(start as int, (i + 1) as int) =~= s@.subrange(
                start as int,
                i as int,
            ).push(s@[i as int]));
            assert(prefix_value(d, i + 1 - start) == prefix_value(d, i - start) * 10 + digit_val(
                d[i - start],
            ));
        }
        if next > 65535 {
            proof {
                lemma_prefix_value_monotone(d, i + 1 - start, d.len() as int);
            }
            return None;
        }
        acc = next;
        i = i + 1;
    }
    proof {
        assert(d =~= s@.subrange(start as int, len as int));
        assert(all_digits(d));
    }
    Some(acc as u16)
}

} // verus!
