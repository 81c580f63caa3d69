//! Reading a decimal integer from text, as a configuration value is given.

use vstd::prelude::*;
use vstd::string::*;

verus! {

/// The character is one of `0` to `9`.
pub open spec fn is_digit(c: char) -> bool {
    '0' as u32 <= c as u32 <= '9' as u32
}

/// The value of a digit.
pub open spec fn digit_of(c: char) -> int {
    c as u32 - '0' as u32
}

/// Every character is a digit.
pub open spec fn all_digits(digits: Seq<char>) -> bool {
    forall|i: int| 0 <= i < digits.len() ==> is_digit(#[trigger] digits[i])
}

/// The number that a run of digits writes in base ten.
pub open spec fn digits_value(digits: Seq<char>) -> int
    decreases digits.len(),
{
    if digits.len() == 0 {
        0
    } else {
        digits_value(digits.drop_last()) * 10 + digit_of(digits.last())
    }
}

/// The digits of a text: what follows its sign, if it has one.
pub open spec fn digits_of(text: Seq<char>) -> Seq<char> {
    if text.len() > 0 && (text[0] == '-' || text[0] == '+') {
        text.subrange(1, text.len() as int)
    } else {
        text
    }
}

/// The number that a text writes: its digits, negated behind a `-`.
pub open spec fn signed_value(text: Seq<char>) -> int {
    if text.len() > 0 && text[0] == '-' {
        -digits_value(digits_of(text))
    } else {
        digits_value(digits_of(text))
    }
}

/// The integer that a text stands for: an optional `+` or `-`, then one or
/// more digits and nothing else, with a value that an `i64` holds. Any other
/// text stands for none.
pub open spec fn parsed_i64(text: Seq<char>) -> Option<i64> {
    if digits_of(text).len() > 0 && all_digits(digits_of(text)) && i64::MIN <= signed_value(text)
        <= i64::MAX {
        Some(signed_value(text) as i64)
    } else {
        None
    }
}

/// The value of a run of digits is not negative, and a further digit does
/// not make it smaller.
proof fn lemma_digits_value_grows(digits: Seq<char>)
    requires
        all_digits(digits),
    ensures
        0 <= digits_value(digits),
        digits.len() > 0 ==> digits_value(digits.drop_last()) <= digits_value(digits),
    decreases digits.len(),
{
    if digits.len() > 0 {
        let shorter = digits.drop_last();
        assert(all_digits(shorter)) by {
            assert forall|i: int| 0 <= i < shorter.len() implies is_digit(
                #[trigger] shorter[i],
            ) by {
                assert(shorter[i] == digits[i]);
            }
        }
        lemma_digits_value_grows(shorter);
        assert(is_digit(digits[digits.len() - 1]));
    }
}

/// The magnitude beyond which no sign brings a value into the range of an
/// `i64`.
pub const MAGNITUDE_LIMIT: i128 = 0x8000_0000_0000_0000;

/// Reads a decimal integer.
pub fn parse_i64(text: &str) -> (value: Option<i64>)
    ensures
        value == parsed_i64(text@),
{
    let len = text.unicode_len();
    if len == 0 {
        return None;
    }
    let first = text.get_char(0);
    let negative = first == '-';
    let start: usize = if first == '-' || first == '+' {
        1
    } else {
        0
    };
    let ghost digits = digits_of(text@);
    assert(digits == text@.subrange(start as int, len as int));
    if start == len {
        return None;
    }
    let mut magnitude: i128 = 0;
    let mut beyond = false;
    let mut i: usize = start;
    assert(text@.subrange(start as int, i as int) =~= Seq::<char>::empty());
    while i < len
        invariant
            start <= i <= len,
            len == text@.len(),
            digits == digits_of(text@),
            digits == text@.subrange(start as int, len as int),
            all_digits(text@.subrange(start as int, i as int)),
            0 <= magnitude <= MAGNITUDE_LIMIT,
            !beyond ==> magnitude == digits_value(text@.subrange(start as int, i as int)),
            beyond ==> digits_value(text@.subrange(start as int, i as int)) > MAGNITUDE_LIMIT,
        decreases len - i,
    {
        let c = text.get_char(i);
        let code = c as u32;
        if code < 48 || code > 57 {
            assert(!is_digit(digits[i - start]));
            return None;
        }
        let digit = (code - 48) as i128;
        let ghost seen = text@.subrange(start as int, i as int);
        let ghost longer = text@.subrange(start as int, i + 1);
        proof {
            assert(longer.drop_last() =~= seen);
            assert(longer.last() == c);
            assert(all_digits(longer)) by {
                assert forall|k: int| 0 <= k < longer.len() implies is_digit(
                    #[trigger] longer[k],
                ) by {
                    if k < seen.len() {
                        assert(longer[k] == seen[k]);
                    }
                }
            }
            lemma_digits_value_grows(longer);
        }
        if !beyond {
            let next = magnitude * 10 + digit;
            if next > MAGNITUDE_LIMIT {
                beyond = true;
            } else {
                magnitude = next;
            }
        }
        i = i + 1;
    }
    assert(text@.subrange(start as int, i as int) =~= digits);
    if beyond {
        return None;
    }
    let value: i128 = if negative {
        -magnitude
    } else {
        magnitude
    };
    if value < i64::MIN as i128 || value > i64::MAX as i128 {
        None
    } else {
        Some(value as i64)
    }
}

} // verus!
