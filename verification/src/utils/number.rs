use vstd::prelude::*;
use vstd::string::{is_ascii, StrSliceExecFns};

verus! {

/// The value of a decimal digit; `None` for every other character.
pub open spec fn spec_digit(c: char) -> Option<int> {
    if 48 <= c as int <= 57 {
        Some(c as int - 48)
    } else {
        None
    }
}

/// The number that a run of decimal digits writes, of whatever length;
/// `None` where a character of the run is no digit. The empty run writes
/// zero.
pub open spec fn spec_digits_value(digits: Seq<char>) -> Option<int>
    decreases digits.len(),
{
    if digits.len() == 0 {
        Some(0)
    } else {
        match (spec_digits_value(digits.drop_last()), spec_digit(digits.last())) {
            (Some(front), Some(last)) => Some(10 * front + last),
            _ => None,
        }
    }
}

/// The digits of a text that may begin with a sign: the text without the
/// sign.
pub open spec fn spec_unsigned_part(text: Seq<char>) -> Seq<char> {
    if text.len() > 0 && (text[0] == '-' || text[0] == '+') {
        text.skip(1)
    } else {
        text
    }
}

/// The number that a text writes: an optional sign, `+` or `-`, and then
/// at least one decimal digit and nothing else, for a number that an `i64`
/// holds. Any other text writes no number: not the empty text, not a sign
/// alone, not a text with a blank in it, and not a number out of range.
pub open spec fn spec_i64_from_text(text: Seq<char>) -> Option<i64> {
    let digits = spec_unsigned_part(text);
    if digits.len() == 0 {
        None
    } else {
        match spec_digits_value(digits) {
            Some(value) => {
                let number = if text[0] == '-' {
                    -value
                } else {
                    value
                };
                if i64::MIN <= number <= i64::MAX {
                    Some(number as i64)
                } else {
                    None
                }
            },
            None => None,
        }
    }
}

/// One character that is no digit spoils the whole run.
proof fn lemma_one_bad_digit(digits: Seq<char>, at: int)
    requires
        0 <= at < digits.len(),
        spec_digit(digits[at]) is None,
    ensures
        spec_digits_value(digits) is None,
    decreases digits.len(),
{
    if at < digits.len() - 1 {
        assert(digits.drop_last()[at] == digits[at]);
        lemma_one_bad_digit(digits.drop_last(), at);
    }
}

/// Reads a number from a text, as `spec_i64_from_text` says.
pub fn parse_i64(text: &str) -> (r: Option<i64>)
    ensures
        r == spec_i64_from_text(text@),
{
    let ghost digits = spec_unsigned_part(text@);
    if !text.is_ascii() {
        proof {
            let bad = choose|i: int| 0 <= i < text@.len() && !('\0' <= #[trigger] text@[i] <= '\u{7f}');
            if digits.len() == text@.len() {
                lemma_one_bad_digit(digits, bad);
            } else {
                assert(bad > 0);
                assert(digits[bad - 1] == text@[bad]);
                lemma_one_bad_digit(digits, bad - 1);
            }
        }
        return None;
    }
    let length = text.unicode_len();
    if length == 0 {
        return None;
    }
    let first = text.get_ascii(0);
    let negative = first == 45;
    let start: usize = if first == 45 || first == 43 {
        1
    } else {
        0
    };
    assert(digits =~= text@.skip(start as int));
    assert(negative == (text@[0] == '-'));
    if start == length {
        return None;
    }
    let limit: i128 = 0x8000_0000_0000_0000;
    let mut value: i128 = 0;
    let mut beyond = false;
    let mut at: usize = start;
    while at < length
        invariant
            start <= at <= length,
            length == text@.len(),
            text.is_ascii(),
            digits == text@.skip(start as int),
            digits == spec_unsigned_part(text@),
            limit == 0x8000_0000_0000_0000,
            0 <= value <= limit,
            spec_digits_value(digits.take(at - start)) matches Some(written) && (if beyond {
                written > limit
            } else {
                written == value
            }),
        decreases length - at,
    {
        let byte = text.get_ascii(at);
        let ghost read = digits.take(at - start);
        let ghost grown = digits.take(at - start + 1);
        proof {
            assert(grown.drop_last() =~= read);
            assert(grown.last() == text@[at as int]);
            assert(is_ascii(text));
            assert('\0' <= text@[at as int] <= '\u{7f}');
            assert(text@[at as int] as u8 == byte);
            assert(text@[at as int] as int == byte as int);
        }
        if byte < 48 || byte > 57 {
            proof {
                assert(digits[at - start] == text@[at as int]);
                lemma_one_bad_digit(digits, at - start);
            }
            return None;
        }
        let digit: i128 = (byte - 48) as i128;
        if !beyond {
            value = 10 * value + digit;
            if value > limit {
                beyond = true;
                value = limit;
            }
        }
        at += 1;
    }
    assert(digits.take(length - start) =~= digits);
    if beyond {
        None
    } else if negative {
        Some((-value) as i64)
    } else if value == limit {
        None
    } else {
        Some(value as i64)
    }
}

} // verus!
