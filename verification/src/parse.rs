//! Decimal parsing for values of the constant store, which carries every
//! configured number as a string.

use vstd::prelude::*;

verus! {

/// Whether every character of `s` is a decimal digit.
pub open spec fn all_digits(s: Seq<char>) -> bool {
    forall|i: int| 0 <= i < s.len() ==> '0' <= #[trigger] s[i] <= '9'
}

/// Numeric value of a digit string, most significant digit first.
pub open spec fn dec_value(s: Seq<char>) -> int
    decreases s.len(),
{
    if s.len() == 0 {
        0
    } else {
        dec_value(s.drop_last()) * 10 + (s.last() as int - '0' as int)
    }
}

/// A digit string's value is never negative.
pub proof fn lemma_dec_value_nonneg(s: Seq<char>)
    requires
        all_digits(s),
    ensures
        dec_value(s) >= 0,
    decreases s.len(),
{
    if s.len() > 0 {
        assert(all_digits(s.drop_last()));
        lemma_dec_value_nonneg(s.drop_last());
    }
}

/// Appending digits never shrinks a digit string's value.
pub proof fn lemma_dec_value_prefix_le(s: Seq<char>, n: int)
    requires
        all_digits(s),
        0 <= n <= s.len(),
    ensures
        dec_value(s.subrange(0, n)) <= dec_value(s),
    decreases s.len() - n,
{
    if n < s.len() {
        lemma_dec_value_prefix_le(s, n + 1);
        let shorter = s.subrange(0, n);
        let longer = s.subrange(0, n + 1);
        assert(longer.drop_last() =~= shorter);
        assert(all_digits(shorter)) by {
            assert(forall|i: int|
                0 <= i < shorter.len() ==> shorter[i] == #[trigger] s[i]);
        }
        lemma_dec_value_nonneg(shorter);
        assert(dec_value(longer) == dec_value(shorter) * 10 + (s[n] as int - '0' as int));
        assert(dec_value(shorter) * 10 >= dec_value(shorter)) by (nonlinear_arith)
            requires
                dec_value(shorter) >= 0,
        ;
    } else {
        assert(s.subrange(0, n) =~= s);
    }
}

/// Reads `s` as an unsigned decimal number.  Returns its value exactly when
/// `s` is non-empty, all digits, and the value fits in a `u32`; returns
/// nothing on every other input.
pub fn parse_u32(s: &str) -> (r: Option<u32>)
    ensures
        match r {
            Some(v) => s@.len() > 0 && all_digits(s@) && v == dec_value(s@),
            None => s@.len() == 0 || !all_digits(s@) || dec_value(s@) > u32::MAX,
        },
{
    let len = s.unicode_len();
    if len == 0 {
        return None;
    }
    let mut value: u32 = 0;
    let mut i: usize = 0;
    while i < len
        invariant
            0 <= i <= len,
            len == s@.len(),
            all_digits(s@.subrange(0, i as int)),
            value == dec_value(s@.subrange(0, i as int)),
        decreases len - i,
    {
        let c = s.get_char(i);
        if c < '0' || c > '9' {
            assert(!all_digits(s@));
            return None;
        }
        let d: u32 = (c as u32) - ('0' as u32);
        if value > (u32::MAX - d) / 10 {
            proof {
                let next = s@.subrange(0, i as int + 1);
                assert(next.drop_last() =~= s@.subrange(0, i as int));
                assert(all_digits(next));
                assert(dec_value(next) > u32::MAX) by (nonlinear_arith)
                    requires
                        dec_value(next) == dec_value(next.drop_last()) * 10 + d,
                        d == next.last() as int - '0' as int,
                        0 <= d <= 9,
                        dec_value(next.drop_last()) > (u32::MAX as int - d) / 10,
                        dec_value(next.drop_last()) >= 0,
                ;
                if all_digits(s@) {
                    lemma_dec_value_prefix_le(s@, i as int + 1);
                }
            }
            return None;
        }
        proof {
            let next = s@.subrange(0, i as int + 1);
            assert(next.drop_last() =~= s@.subrange(0, i as int));
            assert(value * 10 + d <= u32::MAX) by (nonlinear_arith)
                requires
                    0 <= d <= 9,
                    value >= 0,
                    value <= (u32::MAX as int - d) / 10,
            ;
        }
        value = value * 10 + d;
        i = i + 1;
    }
    proof {
        assert(s@.subrange(0, len as int) =~= s@);
    }
    Some(value)
}

/// What a string reads as when taken as a signed decimal number: an
/// optional leading minus sign, then digits, the result fitting an `i32`.
pub open spec fn spec_parse_i32(s: Seq<char>) -> Option<int> {
    if s.len() > 1 && s[0] == '-' && all_digits(s.subrange(1, s.len() as int)) && dec_value(
        s.subrange(1, s.len() as int),
    ) <= 0x8000_0000 {
        Some(-dec_value(s.subrange(1, s.len() as int)))
    } else if s.len() > 0 && all_digits(s) && dec_value(s) <= i32::MAX {
        Some(dec_value(s))
    } else {
        None
    }
}

/// Reads `s` as a signed decimal number: an optional leading minus sign,
/// then digits.  Returns the value exactly when it fits in an `i32`;
/// returns nothing on every other input.
pub fn parse_i32(s: &str) -> (r: Option<i32>)
    ensures
        match r {
            Some(v) => spec_parse_i32(s@) == Some(v as int),
            None => spec_parse_i32(s@) is None,
        },
{
    let len = s.unicode_len();
    if len == 0 {
        return None;
    }
    if s.get_char(0) == '-' {
        let digits = s.substring_char(1, len);
        match parse_u32(digits) {
            Some(v) => {
                if v <= 0x8000_0000u32 {
                    let r: i32 = if v == 0x8000_0000u32 {
                        i32::MIN
                    } else {
                        -(v as i32)
                    };
                    Some(r)
                } else {
                    None
                }
            },
            None => None,
        }
    } else {
        match parse_u32(s) {
            Some(v) => {
                if v <= i32::MAX as u32 {
                    Some(v as i32)
                } else {
                    None
                }
            },
            None => None,
        }
    }
}

} // verus!
