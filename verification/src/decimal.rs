//! Numbers in decimal notation, as the fields of a form hold them.

use vstd::prelude::*;
use vstd::string::*;

verus! {

/// Whether a character is a decimal digit.
pub open spec fn is_digit(c: char) -> bool {
    '0' <= c <= '9'
}

/// Whether a text holds decimal digits only.
pub open spec fn is_digits(text: Seq<char>) -> bool {
    forall|i: int| 0 <= i < text.len() ==> is_digit(#[trigger] text[i])
}

/// The number that a text of digits denotes.
pub open spec fn decimal_value(digits: Seq<char>) -> nat
    decreases digits.len(),
{
    if digits.len() == 0 {
        0
    } else {
        decimal_value(digits.drop_last()) * 10 + (digits.last() as nat - '0' as nat) as nat
    }
}

/// The digits of a text in decimal notation: the text without the plus sign
/// that may stand in front.
pub open spec fn unsigned_part(text: Seq<char>) -> Seq<char> {
    if text.len() > 0 && text[0] == '+' {
        text.skip(1)
    } else {
        text
    }
}

/// The number that a text is in decimal notation: an optional plus sign,
/// then one digit or more, which denote a number that fits a `u32`. Any
/// other text is no number.
pub open spec fn parsed_u32(text: Seq<char>) -> Option<u32> {
    let digits = unsigned_part(text);
    if digits.len() > 0 && is_digits(digits) && decimal_value(digits) <= u32::MAX {
        Some(decimal_value(digits) as u32)
    } else {
        None
    }
}

/// The character of a digit.
pub open spec fn digit_char(digit: nat) -> char
    recommends
        digit < 10,
{
    (digit + '0' as nat) as char
}

/// The decimal notation of a number: its digits, the most significant
/// first, without a sign and without leading zeros.
pub open spec fn decimal_text(value: nat) -> Seq<char>
    decreases value,
{
    if value < 10 {
        seq![digit_char(value)]
    } else {
        decimal_text(value / 10).push(digit_char(value % 10))
    }
}

/// Reads a number in decimal notation.
pub fn parse_u32(text: &str) -> (value: Option<u32>)
    ensures
        value == parsed_u32(text@),
{
    let length = text.unicode_len();
    let start: usize = if length > 0 && text.get_char(0) == '+' {
        1
    } else {
        0
    };
    let ghost digits = unsigned_part(text@);
    if start == length {
        return None;
    }
    let mut sum: u64 = 0;
    let mut too_large = false;
    let mut i: usize = start;
    while i < length
        invariant
            start <= i <= length,
            length == text@.len(),
            digits == unsigned_part(text@),
            digits.len() == length - start,
            forall|j: int| 0 <= j < digits.len() ==> digits[j] == text@[j + start],
            is_digits(digits.take(i - start)),
            too_large ==> decimal_value(digits.take(i - start)) > u32::MAX,
            !too_large ==> sum == decimal_value(digits.take(i - start)) && sum <= u32::MAX,
        decreases length - i,
    {
        let c = text.get_char(i);
        let ghost seen = digits.take(i - start);
        let ghost more = digits.take(i + 1 - start);
        assert(more.drop_last() =~= seen);
        if !(c >= '0' && c <= '9') {
            assert(!is_digit(digits[i - start]));
            return None;
        }
        let digit: u64 = (c as u32 - '0' as u32) as u64;
        if !too_large {
            sum = sum * 10 + digit;
            if sum > u32::MAX as u64 {
                too_large = true;
            }
        }
        i += 1;
    }
    assert(digits.take(length - start) =~= digits);
    if too_large {
        None
    } else {
        Some(sum as u32)
    }
}

fn digit_text(digit: u32) -> (text: &'static str)
    requires
        digit < 10,
    ensures
        text@ == seq![digit_char(digit as nat)],
{
    proof {
        reveal_strlit("0");
        reveal_strlit("1");
        reveal_strlit("2");
        reveal_strlit("3");
        reveal_strlit("4");
        reveal_strlit("5");
        reveal_strlit("6");
        reveal_strlit("7");
        reveal_strlit("8");
        reveal_strlit("9");
    }
    let text = if digit == 0 {
        "0"
    } else if digit == 1 {
        "1"
    } else if digit == 2 {
        "2"
    } else if digit == 3 {
        "3"
    } else if digit == 4 {
        "4"
    } else if digit == 5 {
        "5"
    } else if digit == 6 {
        "6"
    } else if digit == 7 {
        "7"
    } else if digit == 8 {
        "8"
    } else {
        "9"
    };
    assert(text@ =~= seq![digit_char(digit as nat)]);
    text
}

/// Writes a number in decimal notation.
pub fn u32_text(value: u32) -> (text: String)
    ensures
        text@ == decimal_text(value as nat),
    decreases value,
{
    if value < 10 {
        String::from_str(digit_text(value))
    } else {
        let mut text = u32_text(value / 10);
        text.append(digit_text(value % 10));
        assert(text@ =~= decimal_text((value / 10) as nat).push(digit_char((value % 10) as nat)));
        text
    }
}

/// The notation of a number holds digits only, and at least one.
pub proof fn decimal_text_is_digits(value: nat)
    ensures
        decimal_text(value).len() > 0,
        is_digits(decimal_text(value)),
        decimal_value(decimal_text(value)) == value,
    decreases value,
{
    if value < 10 {
        let text = decimal_text(value);
        assert(text.drop_last() =~= Seq::<char>::empty());
        assert(decimal_value(text.drop_last()) == 0);
    } else {
        decimal_text_is_digits(value / 10);
        let shorter = decimal_text(value / 10);
        let text = decimal_text(value);
        assert(text.drop_last() =~= shorter);
    }
}

/// What is written is read back: the notation of a number denotes that
/// number.
pub proof fn written_number_is_read_back(value: u32)
    ensures
        parsed_u32(decimal_text(value as nat)) == Some(value),
{
    decimal_text_is_digits(value as nat);
    let text = decimal_text(value as nat);
}

} // verus!
