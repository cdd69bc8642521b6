//! Base-10 parsing of session timestamps.
//!
//! Session metadata stores its two timestamps as decimal strings; they must
//! parse as unsigned integers in the 128-bit range. The parser here follows
//! the standard library's rules for unsigned integers: one optional leading
//! `+`, then one or more ASCII digits, with overflow rejected.

use vstd::prelude::*;

verus! {

use vstd::string::StrSliceExecFns;
use vstd::arithmetic::div_mod::lemma_fundamental_div_mod;
use vstd::arithmetic::div_mod::lemma_mod_division_less_than_divisor;

/// True of the ten ASCII decimal digit characters.
pub open spec fn is_dec_digit(c: char) -> bool {
    48 <= c as u32 <= 57
}

/// Numeric value of one ASCII decimal digit.
pub open spec fn digit_value(c: char) -> int {
    c as u32 - 48
}

/// True where every character of `s` is an ASCII decimal digit.
pub open spec fn all_dec_digits(s: Seq<char>) -> bool {
    forall|i: int| 0 <= i < s.len() ==> is_dec_digit(#[trigger] s[i])
}

/// The integer denoted by a sequence of decimal digits, most significant
/// digit first.
pub open spec fn decimal_value(s: Seq<char>) -> int
    decreases s.len(),
{
    if s.len() == 0 {
        0
    } else {
        decimal_value(s.drop_last()) * 10 + digit_value(s.last())
    }
}

/// The digit part of a numeral: everything after one optional leading `+`.
pub open spec fn digit_part(s: Seq<char>) -> Seq<char> {
    if s.len() > 0 && s[0] == '+' {
        s.subrange(1, s.len() as int)
    } else {
        s
    }
}

/// What `parse_u128` returns: the value of the numeral, or `None` where the
/// digit part is empty, holds a non-digit, or denotes a value above
/// `u128::MAX`.
pub open spec fn spec_parse_u128(s: Seq<char>) -> Option<u128> {
    let d = digit_part(s);
    if d.len() == 0 || !all_dec_digits(d) {
        None
    } else if decimal_value(d) > u128::MAX {
        None
    } else {
        Some(decimal_value(d) as u128)
    }
}

proof fn lemma_decimal_value_nonneg(s: Seq<char>)
    requires
        all_dec_digits(s),
    ensures
        decimal_value(s) >= 0,
    decreases s.len(),
{
    if s.len() > 0 {
        assert(all_dec_digits(s.drop_last()));
        lemma_decimal_value_nonneg(s.drop_last());
        assert(is_dec_digit(s.last()));
    }
}

proof fn lemma_decimal_value_extend(s: Seq<char>, i: int)
    requires
        0 <= i < s.len(),
    ensures
        decimal_value(s.subrange(0, i + 1)) == decimal_value(s.subrange(0, i)) * 10
            + digit_value(s[i]),
{
    let t = s.subrange(0, i + 1);
    assert(t.drop_last() =~= s.subrange(0, i));
    assert(t.last() == s[i]);
}

proof fn lemma_decimal_prefix_le(s: Seq<char>, i: int)
    requires
        all_dec_digits(s),
        0 <= i <= s.len(),
    ensures
        decimal_value(s.subrange(0, i)) <= decimal_value(s),
    decreases s.len() - i,
{
    if i == s.len() {
        assert(s.subrange(0, i) =~= s);
    } else {
        lemma_decimal_value_extend(s, i);
        assert(all_dec_digits(s.subrange(0, i)));
        lemma_decimal_value_nonneg(s.subrange(0, i));
        assert(is_dec_digit(s[i]));
        lemma_decimal_prefix_le(s, i + 1);
    }
}

/// Parses a base-10 unsigned integer exactly as the standard library parses a
/// `u128`: one optional leading `+`, then one or more ASCII digits; any other
/// character, an empty digit part, or a value above `u128::MAX` is rejected.
pub fn parse_u128(s: &str) -> (r: Option<u128>)
    ensures
        r == spec_parse_u128(s@),
{
    let len: usize = s.unicode_len();
    let start: usize = if len > 0 && s.get_char(0) == '+' {
        1
    } else {
        0
    };
    let ghost d = digit_part(s@);
    proof {
        assert(d =~= s@.subrange(start as int, len as int));
    }
    if start >= len {
        return None;
    }
    let mut acc: u128 = 0;
    let mut i: usize = start;
    while i < len
        invariant
            start <= i <= len,
            len == s@.len(),
            d == digit_part(s@),
            d =~= s@.subrange(start as int, len as int),
            forall|k: int| 0 <= k < i - start ==> is_dec_digit(#[trigger] d[k]),
            acc == decimal_value(d.subrange(0, i - start)),
        decreases len - i,
    {
        let ghost j = i - start;
        let c = s.get_char(i);
        proof {
            assert(d[j] == s@[i as int]);
        }
        let u: u32 = c as u32;
        if u < 48 || u > 57 {
            proof {
                assert(!is_dec_digit(d[j]));
            }
            return None;
        }
        let dv: u128 = (u - 48) as u128;
        proof {
            assert(digit_value(d[j]) == dv);
            lemma_fundamental_div_mod(u128::MAX - dv, 10);
            lemma_mod_division_less_than_divisor(u128::MAX - dv, 10);
            lemma_decimal_value_extend(d, j);
        }
        if acc > (u128::MAX - dv) / 10 {
            proof {
                assert(decimal_value(d.subrange(0, j + 1)) > u128::MAX);
                if all_dec_digits(d) {
                    lemma_decimal_prefix_le(d, j + 1);
                }
            }
            return None;
        }
        acc = acc * 10 + dv;
        i = i + 1;
    }
    proof {
        assert(d.subrange(0, i - start) =~= d);
    }
    Some(acc)
}

} // verus!
