//! Decimal numbers in text.

use vstd::prelude::*;
use vstd::string::*;
use vstd::utf8::*;

verus! {

/// The byte `0`.
pub const ZERO: u8 = 0x30;

/// The byte `+`.
pub const PLUS: u8 = 0x2b;

/// True of the bytes `0` to `9`.
pub open spec fn is_digit(byte: u8) -> bool {
    0x30 <= byte <= 0x39
}

/// True when every byte is a decimal digit.
pub open spec fn all_digits(bytes: Seq<u8>) -> bool {
    forall|i: int| 0 <= i < bytes.len() ==> is_digit(#[trigger] bytes[i])
}

/// The number that a sequence of decimal digits denotes.
pub open spec fn digits_value(digits: Seq<u8>) -> nat
    decreases digits.len(),
{
    if digits.len() == 0 {
        0
    } else {
        digits_value(digits.drop_last()) * 10 + (digits.last() - ZERO) as nat
    }
}

/// The bytes that follow an optional leading `+`.
pub open spec fn without_sign(bytes: Seq<u8>) -> Seq<u8> {
    if bytes.len() > 0 && bytes[0] == PLUS {
        bytes.drop_first()
    } else {
        bytes
    }
}

/// The unsigned 64-bit number that a text denotes: an optional `+`, then one
/// or more decimal digits and nothing else, with a value that fits.
pub open spec fn spec_parse_u64(text: Seq<char>) -> Option<u64> {
    let digits = without_sign(encode_utf8(text));
    if digits.len() > 0 && all_digits(digits) && digits_value(digits) <= u64::MAX {
        Some(digits_value(digits) as u64)
    } else {
        None
    }
}

/// Parse an unsigned 64-bit decimal number.
pub fn parse_u64(text: &str) -> (number: Option<u64>)
    ensures
        number == spec_parse_u64(text@),
{
    let bytes = text.as_bytes();
    let len: usize = bytes.len();
    let start: usize = if len > 0 && bytes[0] == PLUS {
        1
    } else {
        0
    };
    if start == len {
        return None;
    }
    let ghost digits = without_sign(bytes@);
    assert(digits =~= bytes@.subrange(start as int, len as int));
    let mut value: u64 = 0;
    let mut overflow = false;
    let mut i: usize = start;
    assert(digits.take(0) =~= Seq::<u8>::empty());
    while i < len
        invariant
            start <= i <= len,
            len == bytes@.len(),
            digits == bytes@.subrange(start as int, len as int),
            digits == without_sign(encode_utf8(text@)),
            all_digits(digits.take(i - start)),
            !overflow ==> value == digits_value(digits.take(i - start)),
            overflow ==> digits_value(digits.take(i - start)) > u64::MAX,
        decreases len - i,
    {
        let byte: u8 = bytes[i];
        let ghost before = digits.take(i - start);
        let ghost after = digits.take(i - start + 1);
        assert(digits[i - start] == byte);
        assert(after.drop_last() =~= before);
        assert(after.last() == byte);
        if byte < 0x30 || byte > 0x39 {
            assert(!is_digit(digits[i - start]));
            return None;
        }
        assert(all_digits(after)) by {
            assert forall|j: int| 0 <= j < after.len() implies is_digit(#[trigger] after[j]) by {
                if j < before.len() {
                    assert(after[j] == before[j]);
                }
            }
        }
        let digit: u64 = (byte - ZERO) as u64;
        if !overflow {
            if value > (u64::MAX - digit) / 10 {
                overflow = true;
            } else {
                value = value * 10 + digit;
            }
        }
        i += 1;
    }
    assert(digits.take(len - start) =~= digits);
    if overflow {
        None
    } else {
        Some(value)
    }
}

/// The character for a decimal digit.
pub open spec fn digit_char(digit: nat) -> char
    recommends
        digit < 10,
{
    (ZERO + digit) as char
}

/// The decimal digits of a number, without leading zeros.
pub open spec fn decimal_text(number: nat) -> Seq<char>
    decreases number,
{
    if number < 10 {
        seq![digit_char(number)]
    } else {
        decimal_text(number / 10).push(digit_char(number % 10))
    }
}

/// The text of one decimal digit.
pub fn digit_str(digit: u8) -> (text: &'static str)
    requires
        digit < 10,
    ensures
        text@ == seq![digit_char(digit as nat)],
{
    proof {
        reveal_strlit("0");
        reveal_strlit("1");
        reveal_strlit("2");
        reveal_strlit("3");
        reveal_strlit("4");
        reveal_strlit("5");
        reveal_strlit("6");
        reveal_strlit("7");
        reveal_strlit("8");
        reveal_strlit("9");
    }
    let text = if digit == 0 {
        "0"
    } else if digit == 1 {
        "1"
    } else if digit == 2 {
        "2"
    } else if digit == 3 {
        "3"
    } else if digit == 4 {
        "4"
    } else if digit == 5 {
        "5"
    } else if digit == 6 {
        "6"
    } else if digit == 7 {
        "7"
    } else if digit == 8 {
        "8"
    } else {
        "9"
    };
    assert(text@ =~= seq![digit_char(digit as nat)]);
    text
}

/// Append the decimal digits of a number to a text.
pub fn append_decimal(text: &mut String, number: u64)
    ensures
        final(text)@ == old(text)@ + decimal_text(number as nat),
    decreases number,
{
    if number >= 10 {
        append_decimal(text, number / 10);
    }
    let digit: u8 = (number % 10) as u8;
    text.append(digit_str(digit));
    assert(final(text)@ =~= old(text)@ + decimal_text(number as nat));
}

/// The number that a text of decimal digits denotes.
pub open spec fn text_value(text: Seq<char>) -> nat
    decreases text.len(),
{
    if text.len() == 0 {
        0
    } else {
        text_value(text.drop_last()) * 10 + (text.last() as u8 - ZERO) as nat
    }
}

/// The decimal digits of a number denote that number, and there is at least
/// one of them.
pub proof fn lemma_decimal_text_value(number: nat)
    ensures
        text_value(decimal_text(number)) == number,
        decimal_text(number).len() >= 1,
    decreases number,
{
    let text = decimal_text(number);
    if number < 10 {
        assert(text.drop_last() =~= Seq::<char>::empty());
        assert(text.last() == digit_char(number));
        assert(text_value(text.drop_last()) == 0);
    } else {
        lemma_decimal_text_value(number / 10);
        assert(text.drop_last() =~= decimal_text(number / 10));
        assert(text.last() == digit_char(number % 10));
    }
}

/// Different numbers have different decimal digits.
pub proof fn lemma_decimal_text_injective(first: nat, second: nat)
    requires
        decimal_text(first) == decimal_text(second),
    ensures
        first == second,
{
    lemma_decimal_text_value(first);
    lemma_decimal_text_value(second);
}

} // verus!
