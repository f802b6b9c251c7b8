//! The participant-mention grammar used by the statistics command.
//!
//! A mention is `<@!` followed by one or more ASCII digits and a `>`.
//! The command takes the first such occurrence in its argument and
//! reads the digits as the participant's identity.

use vstd::prelude::*;

use crate::numeral::all_digits;
use crate::numeral::dec_range_u64;
use crate::numeral::dec_value;
use crate::numeral::is_digit;

verus! {

/// The first position at or after `i` that is not a digit.
pub open spec fn digit_run_end(s: Seq<u8>, i: int) -> int
    decreases s.len() - i when 0 <= i <= s.len()
{
    if i < s.len() && is_digit(s[i]) {
        digit_run_end(s, i + 1)
    } else {
        i
    }
}

/// A well-formed mention starts at `i`: the opener `<@!`, at least one
/// digit, and a `>` right after the digits.
pub open spec fn mention_at(s: Seq<u8>, i: int) -> bool {
    &&& 0 <= i
    &&& i + 3 < s.len()
    &&& s[i] == 60
    &&& s[i + 1] == 64
    &&& s[i + 2] == 33
    &&& digit_run_end(s, i + 3) > i + 3
    &&& digit_run_end(s, i + 3) < s.len()
    &&& s[digit_run_end(s, i + 3)] == 62
}

/// The digits of the mention starting at `i`.
pub open spec fn mention_digits(s: Seq<u8>, i: int) -> Seq<u8> {
    s.subrange(i + 3, digit_run_end(s, i + 3))
}

/// The digits of the first mention at or after position `i`, if any.
pub open spec fn first_mention_from(s: Seq<u8>, i: int) -> Option<Seq<u8>>
    decreases s.len() - i when 0 <= i <= s.len()
{
    if i >= s.len() {
        None
    } else if mention_at(s, i) {
        Some(mention_digits(s, i))
    } else {
        first_mention_from(s, i + 1)
    }
}

/// What scanning a command argument for a mention yields: the identity
/// written in the first mention, when there is one and it fits a
/// `u64`.
pub open spec fn mention_spec(s: Seq<u8>) -> Option<u64> {
    match first_mention_from(s, 0) {
        None => None,
        Some(d) => if dec_value(d) <= u64::MAX {
            Some(dec_value(d) as u64)
        } else {
            None
        },
    }
}

/// Everything inside a digit run is a digit.
proof fn lemma_digit_run_all_digits(s: Seq<u8>, i: int)
    requires
        0 <= i <= s.len(),
    ensures
        i <= digit_run_end(s, i) <= s.len(),
        all_digits(s.subrange(i, digit_run_end(s, i))),
    decreases s.len() - i,
{
    if i < s.len() && is_digit(s[i]) {
        lemma_digit_run_all_digits(s, i + 1);
        let e = digit_run_end(s, i);
        assert(e == digit_run_end(s, i + 1));
        assert forall|k: int| 0 <= k < e - i implies is_digit(
            #[trigger] s.subrange(i, e)[k],
        ) by {
            if k > 0 {
                assert(s.subrange(i, e)[k] == s.subrange(i + 1, e)[k - 1]);
            }
        }
    }
}

/// Find the first mention in `text` and read its digits, as
/// [`mention_spec`] says.
pub fn parse_mention(text: &[u8]) -> (r: Option<u64>)
    ensures
        r == mention_spec(text@),
{
    let n = text.len();
    let mut i: usize = 0;
    while i < n
        invariant
            0 <= i <= n == text@.len(),
            first_mention_from(text@, 0) == first_mention_from(text@, i as int),
        decreases n - i,
    {
        if n - i > 3 && text[i] == 60 && text[i + 1] == 64 && text[i + 2] == 33 {
            let mut j: usize = i + 3;
            while j < n && text[j] >= 48 && text[j] <= 57
                invariant
                    i + 3 <= j <= n == text@.len(),
                    forall|k: int| i + 3 <= k < j ==> is_digit(#[trigger] text@[k]),
                    digit_run_end(text@, i + 3) == digit_run_end(text@, j as int),
                decreases n - j,
            {
                j = j + 1;
            }
            assert(digit_run_end(text@, j as int) == j);
            if j > i + 3 && j < n && text[j] == 62 {
                assert(mention_at(text@, i as int));
                proof {
                    lemma_digit_run_all_digits(text@, i + 3);
                }
                let d = dec_range_u64(text, i + 3, j);
                assert(text@.subrange(i + 3, j as int) == mention_digits(text@, i as int));
                return d;
            }
            assert(!mention_at(text@, i as int));
        } else {
            assert(!mention_at(text@, i as int));
        }
        i = i + 1;
    }
    None
}

} // verus!
