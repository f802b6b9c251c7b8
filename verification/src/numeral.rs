//! Decimal numerals in submission text.
//!
//! A submission is a byte string. It counts as a number exactly when it
//! is an optional `+` followed by one or more ASCII digits whose value
//! fits the counter width — the same shape `u32::from_str` accepts for
//! an unsigned integer.

use vstd::prelude::*;

verus! {

/// ASCII `0` through `9`.
pub open spec fn is_digit(b: u8) -> bool {
    48 <= b && b <= 57
}

/// The numeric value of one digit byte.
pub open spec fn digit_val(b: u8) -> nat {
    (b - 48) as nat
}

/// Every byte of `s` is a digit.
pub open spec fn all_digits(s: Seq<u8>) -> bool {
    forall|i: int| 0 <= i < s.len() ==> is_digit(#[trigger] s[i])
}

/// The value of a digit string read in base ten.
pub open spec fn dec_value(s: Seq<u8>) -> nat
    decreases s.len(),
{
    if s.len() == 0 {
        0
    } else {
        dec_value(s.drop_last()) * 10 + digit_val(s.last())
    }
}

/// `s` without its optional leading `+` sign.
pub open spec fn digits_part(s: Seq<u8>) -> Seq<u8> {
    if s.len() > 0 && s[0] == 43 {
        s.subrange(1, s.len() as int)
    } else {
        s
    }
}

/// What parsing a submission as a `u32` yields: the numeral's value when
/// the text is a well-formed numeral that fits, nothing otherwise.
pub open spec fn parse_u32_spec(s: Seq<u8>) -> Option<u32> {
    let d = digits_part(s);
    if d.len() > 0 && all_digits(d) && dec_value(d) <= u32::MAX {
        Some(dec_value(d) as u32)
    } else {
        None
    }
}

/// Appending a digit multiplies the value by ten and adds the digit.
pub proof fn lemma_dec_value_take_step(s: Seq<u8>, i: int)
    requires
        0 <= i < s.len(),
    ensures
        dec_value(s.take(i + 1)) == dec_value(s.take(i)) * 10 + digit_val(s[i]),
{
    assert(s.take(i + 1).drop_last() =~= s.take(i));
    assert(s.take(i + 1).last() == s[i]);
}

/// A prefix of a digit string never has a larger value than the whole.
pub proof fn lemma_dec_value_take_le(s: Seq<u8>, i: int)
    requires
        0 <= i <= s.len(),
    ensures
        dec_value(s.take(i)) <= dec_value(s),
    decreases s.len() - i,
{
    if i == s.len() {
        assert(s.take(i) =~= s);
    } else {
        lemma_dec_value_take_step(s, i);
        lemma_dec_value_take_le(s, i + 1);
    }
}

/// The value of the digit byte range `text[start..end]`, when it fits a
/// `u64`; nothing when it exceeds `u64::MAX`.
pub fn dec_range_u64(text: &[u8], start: usize, end: usize) -> (r: Option<u64>)
    requires
        start <= end <= text@.len(),
        all_digits(text@.subrange(start as int, end as int)),
    ensures
        ({
            let d = text@.subrange(start as int, end as int);
            r == if dec_value(d) <= u64::MAX {
                Some(dec_value(d) as u64)
            } else {
                None::<u64>
            }
        }),
{
    let ghost d = text@.subrange(start as int, end as int);
    let mut acc: u128 = 0;
    let mut i: usize = start;
    while i < end
        invariant
            start <= i <= end <= text@.len(),
            d == text@.subrange(start as int, end as int),
            all_digits(d),
            acc == dec_value(d.take(i - start)),
            acc <= u64::MAX,
        decreases end - i,
    {
        let b = text[i];
        assert(d[i - start] == b);
        proof {
            lemma_dec_value_take_step(d, i - start);
        }
        acc = acc * 10 + ((b - 48) as u128);
        i = i + 1;
        if acc > u64::MAX as u128 {
            proof {
                lemma_dec_value_take_le(d, i - start);
            }
            return None;
        }
    }
    assert(d.take((end - start) as int) =~= d);
    Some(acc as u64)
}

/// Parse a submission as the game rule reads it: an optional `+`, then
/// one or more decimal digits, rejecting values above `u32::MAX`.
pub fn parse_u32(text: &[u8]) -> (r: Option<u32>)
    ensures
        r == parse_u32_spec(text@),
{
    let n = text.len();
    let start: usize = if n > 0 && text[0] == 43 {
        1
    } else {
        0
    };
    let ghost d = digits_part(text@);
    assert(d =~= text@.subrange(start as int, n as int));
    if start >= n {
        return None;
    }
    let mut i: usize = start;
    while i < n
        invariant
            start <= i <= n == text@.len(),
            d == digits_part(text@),
            d == text@.subrange(start as int, n as int),
            forall|k: int| 0 <= k < i - start ==> is_digit(#[trigger] d[k]),
        decreases n - i,
    {
        let b = text[i];
        if b < 48 || b > 57 {
            assert(!all_digits(d)) by {
                assert(!is_digit(d[i - start]));
            }
            return None;
        }
        i = i + 1;
    }
    match dec_range_u64(text, start, n) {
        Some(v) => {
            if v <= u32::MAX as u64 {
                Some(v as u32)
            } else {
                None
            }
        },
        None => None,
    }
}

} // verus!
