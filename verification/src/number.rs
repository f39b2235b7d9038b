//! Numbers as they are written in a path.

use vstd::prelude::*;
use vstd::string::*;
use vstd::utf8::*;

verus! {

/// Whether a character is one of the ten digits.
pub open spec fn is_digit(c: char) -> bool {
    '0' <= c <= '9'
}

/// Whether a text holds digits only.
pub open spec fn all_digits(text: Seq<char>) -> bool {
    forall|i: int| 0 <= i < text.len() ==> is_digit(#[trigger] text[i])
}

/// The number that a run of digits writes in base ten.
pub open spec fn decimal_value(digits: Seq<char>) -> int
    decreases digits.len(),
{
    if digits.len() == 0 {
        0
    } else {
        decimal_value(digits.drop_last()) * 10 + (digits.last() as int - '0' as int)
    }
}

/// The character of a digit.
pub open spec fn digit_char(digit: int) -> char {
    if digit == 0 {
        '0'
    } else if digit == 1 {
        '1'
    } else if digit == 2 {
        '2'
    } else if digit == 3 {
        '3'
    } else if digit == 4 {
        '4'
    } else if digit == 5 {
        '5'
    } else if digit == 6 {
        '6'
    } else if digit == 7 {
        '7'
    } else if digit == 8 {
        '8'
    } else {
        '9'
    }
}

/// How a number that is not negative is written in base ten: with as few
/// digits as it takes.
pub open spec fn decimal_digits(number: int) -> Seq<char>
    decreases number,
{
    if number < 10 {
        seq![digit_char(number)]
    } else {
        decimal_digits(number / 10).push(digit_char(number % 10))
    }
}

/// What is written is what is read: the digits of a number are digits, and
/// their value is the number.
pub proof fn lemma_decimal_digits(number: int)
    requires
        number >= 0,
    ensures
        decimal_digits(number).len() > 0,
        all_digits(decimal_digits(number)),
        decimal_value(decimal_digits(number)) == number,
    decreases number,
{
    let digits = decimal_digits(number);
    if number < 10 {
        assert(digits.drop_last() =~= Seq::<char>::empty());
        assert(decimal_value(digits.drop_last()) == 0);
    } else {
        lemma_decimal_digits(number / 10);
        let before = decimal_digits(number / 10);
        assert(digits.drop_last() =~= before);
        assert(digits.last() == digit_char(number % 10));
        assert forall|i: int| 0 <= i < digits.len() implies is_digit(#[trigger] digits[i]) by {
            if i < before.len() {
                assert(digits[i] == before[i]);
            }
        }
    }
}

/// A number from 1 on that fits is read back from its digits.
pub proof fn lemma_positive_number_of_its_digits(number: i64)
    requires
        number >= 1,
    ensures
        positive_number(decimal_digits(number as int)) == Some(number),
{
    lemma_decimal_digits(number as int);
    let digits = decimal_digits(number as int);
    assert(is_digit(digits[0]));
    assert(unsigned_digits(digits) == digits);
}

/// The digits of a number that may be written with a plus sign before it.
pub open spec fn unsigned_digits(text: Seq<char>) -> Seq<char> {
    if text.len() > 0 && text[0] == '+' {
        text.skip(1)
    } else {
        text
    }
}

/// The number from 1 on that a text writes: one or more digits, with or
/// without a plus sign before them, whose value is at least 1 and fits. Any
/// other text writes none.
pub open spec fn positive_number(text: Seq<char>) -> Option<i64> {
    let digits = unsigned_digits(text);
    if digits.len() > 0 && all_digits(digits) && 1 <= decimal_value(digits) <= i64::MAX {
        Some(decimal_value(digits) as i64)
    } else {
        None
    }
}

/// More digits never write a smaller number.
proof fn lemma_decimal_value_grows(digits: Seq<char>, shorter: int)
    requires
        all_digits(digits),
        0 <= shorter <= digits.len(),
    ensures
        0 <= decimal_value(digits.take(shorter)) <= decimal_value(digits),
    decreases digits.len() - shorter,
{
    if shorter == digits.len() {
        assert(digits.take(shorter) =~= digits);
        lemma_decimal_value_not_negative(digits);
    } else {
        lemma_decimal_value_grows(digits, shorter + 1);
        let longer = digits.take(shorter + 1);
        assert(longer.drop_last() =~= digits.take(shorter));
        assert(is_digit(digits[shorter]));
        assert(longer.last() == digits[shorter]);
        lemma_decimal_value_not_negative(digits.take(shorter));
    }
}

proof fn lemma_decimal_value_not_negative(digits: Seq<char>)
    requires
        all_digits(digits),
    ensures
        0 <= decimal_value(digits),
    decreases digits.len(),
{
    if digits.len() > 0 {
        assert(is_digit(digits.last()));
        lemma_decimal_value_not_negative(digits.drop_last());
    }
}

/// Reads a number from 1 on.
pub fn parse_positive(text: &str) -> (number: Option<i64>)
    ensures
        number == positive_number(text@),
{
    let ghost digits = unsigned_digits(text@);
    if !text.is_ascii() {
        proof {
            let at = choose|i: int|
                0 <= i < text@.len() && !('\0' <= #[trigger] text@[i] <= '\u{7f}');
            if text@.len() > 0 && text@[0] == '+' {
                assert(digits[at - 1] == text@[at]);
                assert(!is_digit(digits[at - 1]));
            } else {
                assert(!is_digit(digits[at]));
            }
        }
        return None;
    }
    let bytes = text.as_bytes();
    proof {
        is_ascii_chars_encode_utf8(text@);
        is_ascii_chars_nat_bound(text@);
    }
    let len = bytes.len();
    let start: usize = if len > 0 && bytes[0] == 0x2b {
        1
    } else {
        0
    };
    assert(digits =~= text@.skip(start as int));
    if start == len {
        return None;
    }
    let mut value: i64 = 0;
    let mut i: usize = start;
    assert(digits.take(0) =~= Seq::<char>::empty());
    while i < len
        invariant
            start <= i <= len,
            len == text@.len(),
            len == bytes@.len(),
            bytes@ == encode_utf8(text@),
            digits == unsigned_digits(text@),
            is_ascii_chars(text@),
            forall|j: int| 0 <= j < len ==> text@[j] as u8 == #[trigger] bytes@[j],
            forall|j: int| 0 <= j < len ==> (text@[j] as nat) < 128,
            digits == text@.skip(start as int),
            all_digits(digits.take(i - start)),
            value == decimal_value(digits.take(i - start)),
            0 <= value,
        decreases len - i,
    {
        let byte = bytes[i];
        let ghost c = text@[i as int];
        assert(c as u8 == byte);
        assert(digits[i - start] == c);
        if byte < 0x30 || byte > 0x39 {
            assert(!is_digit(c));
            return None;
        }
        assert(is_digit(c));
        let digit: i64 = (byte - 0x30) as i64;
        assert(digit == c as int - '0' as int);
        let ghost longer = digits.take(i - start + 1);
        assert(longer.drop_last() =~= digits.take(i - start));
        assert(longer.last() == c);
        assert(all_digits(longer)) by {
            assert forall|j: int| 0 <= j < longer.len() implies is_digit(#[trigger] longer[j]) by {
                if j < i - start {
                    assert(longer[j] == digits.take(i - start)[j]);
                }
            }
        }
        if value > (i64::MAX - digit) / 10 {
            proof {
                if all_digits(digits) {
                    lemma_decimal_value_grows(digits, i - start + 1);
                }
            }
            return None;
        }
        value = value * 10 + digit;
        i += 1;
    }
    assert(digits.take(len - start) =~= digits);
    if value >= 1 {
        Some(value)
    } else {
        None
    }
}

} // verus!
