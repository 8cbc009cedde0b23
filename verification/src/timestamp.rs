//! Deletion times.
//!
//! A metadata record holds the local date and time at which an item was
//! trashed, to the second and without a time zone, in the fixed pattern
//! `YYYY-MM-DDTHH:MM:SS`. The second may be 60, for a leap second.

use vstd::prelude::*;
use vstd::string::*;
use vstd::utf8::*;

use crate::decimal::{digit_char, digit_str, is_digit, ZERO};

verus! {

/// The length of a timestamp in text.
pub const TEXT_LENGTH: usize = 19;

/// The byte `-`.
pub const HYPHEN: u8 = 0x2d;

/// The byte `T`.
pub const LETTER_T: u8 = 0x54;

/// The byte `:`.
pub const COLON: u8 = 0x3a;

/// True of the years that have a 29th of February.
pub open spec fn is_leap_year(year: nat) -> bool {
    year % 4 == 0 && (year % 100 != 0 || year % 400 == 0)
}

/// The number of days of a month of a year.
pub open spec fn days_in_month(year: nat, month: nat) -> nat {
    if month == 2 {
        if is_leap_year(year) {
            29
        } else {
            28
        }
    } else if month == 4 || month == 6 || month == 9 || month == 11 {
        30
    } else {
        31
    }
}

/// A date and a time of day, as numbers.
pub struct TimestampView {
    pub year: nat,
    pub month: nat,
    pub day: nat,
    pub hour: nat,
    pub minute: nat,
    pub second: nat,
}

impl TimestampView {
    /// True when the numbers denote a second of a day of the calendar, in a
    /// year of at most four digits. Second 60 is a leap second, which any
    /// minute may have.
    pub open spec fn valid(self) -> bool {
        &&& self.year <= 9999
        &&& 1 <= self.month <= 12
        &&& 1 <= self.day <= days_in_month(self.year, self.month)
        &&& self.hour <= 23
        &&& self.minute <= 59
        &&& self.second <= 60
    }

    /// A number that grows with time: of two valid timestamps the earlier one
    /// has the smaller number, and equal numbers mean equal timestamps.
    pub open spec fn ordinal(self) -> nat {
        ((((self.year * 13 + self.month) * 32 + self.day) * 24 + self.hour) * 60 + self.minute)
            * 61 + self.second
    }

    /// The timestamp in text, in the pattern `YYYY-MM-DDTHH:MM:SS`.
    pub open spec fn text(self) -> Seq<char> {
        seq![
            digit_char(self.year / 1000 % 10),
            digit_char(self.year / 100 % 10),
            digit_char(self.year / 10 % 10),
            digit_char(self.year % 10),
            '-',
            digit_char(self.month / 10 % 10),
            digit_char(self.month % 10),
            '-',
            digit_char(self.day / 10 % 10),
            digit_char(self.day % 10),
            'T',
            digit_char(self.hour / 10 % 10),
            digit_char(self.hour % 10),
            ':',
            digit_char(self.minute / 10 % 10),
            digit_char(self.minute % 10),
            ':',
            digit_char(self.second / 10 % 10),
            digit_char(self.second % 10),
        ]
    }
}

/// True when the bytes follow the pattern `YYYY-MM-DDTHH:MM:SS`.
pub open spec fn matches_pattern(bytes: Seq<u8>) -> bool {
    &&& bytes.len() == 19
    &&& is_digit(bytes[0])
    &&& is_digit(bytes[1])
    &&& is_digit(bytes[2])
    &&& is_digit(bytes[3])
    &&& bytes[4] == HYPHEN
    &&& is_digit(bytes[5])
    &&& is_digit(bytes[6])
    &&& bytes[7] == HYPHEN
    &&& is_digit(bytes[8])
    &&& is_digit(bytes[9])
    &&& bytes[10] == LETTER_T
    &&& is_digit(bytes[11])
    &&& is_digit(bytes[12])
    &&& bytes[13] == COLON
    &&& is_digit(bytes[14])
    &&& is_digit(bytes[15])
    &&& bytes[16] == COLON
    &&& is_digit(bytes[17])
    &&& is_digit(bytes[18])
}

/// The number that the two digits at the given place denote.
pub open spec fn two_digits(bytes: Seq<u8>, at: int) -> nat {
    ((bytes[at] - ZERO) * 10 + (bytes[at + 1] - ZERO)) as nat
}

/// The numbers that bytes of the pattern `YYYY-MM-DDTHH:MM:SS` hold.
pub open spec fn pattern_fields(bytes: Seq<u8>) -> TimestampView {
    TimestampView {
        year: two_digits(bytes, 0) * 100 + two_digits(bytes, 2),
        month: two_digits(bytes, 5),
        day: two_digits(bytes, 8),
        hour: two_digits(bytes, 11),
        minute: two_digits(bytes, 14),
        second: two_digits(bytes, 17),
    }
}

/// The timestamp that a text denotes: the text follows the pattern
/// `YYYY-MM-DDTHH:MM:SS` and its numbers are valid.
pub open spec fn spec_parse(text: Seq<char>) -> Option<TimestampView> {
    let bytes = encode_utf8(text);
    if matches_pattern(bytes) && pattern_fields(bytes).valid() {
        Some(pattern_fields(bytes))
    } else {
        None
    }
}

/// The two digits of a number below 100 denote that number.
proof fn lemma_digits_of(number: nat, high: u8, low: u8)
    requires
        number <= 99,
        high == digit_char(number / 10 % 10) as u8,
        low == digit_char(number % 10) as u8,
    ensures
        is_digit(high),
        is_digit(low),
        (high - ZERO) * 10 + (low - ZERO) == number,
{
}

/// Parsing the text of a valid timestamp gives the timestamp back.
pub proof fn lemma_parse_text(timestamp: TimestampView)
    requires
        timestamp.valid(),
    ensures
        spec_parse(timestamp.text()) == Some(timestamp),
{
    let text = timestamp.text();
    let bytes = encode_utf8(text);
    assert(bytes.len() == 19 && forall|i: int| 0 <= i < 19 ==> bytes[i] == text[i] as u8) by {
        assert(is_ascii_chars(text));
        is_ascii_chars_encode_utf8(text);
    }
    let century = timestamp.year / 100;
    let rest = timestamp.year % 100;
    lemma_year_digits(century, rest);
    assert(two_digits(bytes, 0) == century && is_digit(bytes[0]) && is_digit(bytes[1])) by {
        lemma_digits_of(century, bytes[0], bytes[1]);
    }
    assert(two_digits(bytes, 2) == rest && is_digit(bytes[2]) && is_digit(bytes[3])) by {
        lemma_digits_of(rest, bytes[2], bytes[3]);
    }
    assert(two_digits(bytes, 5) == timestamp.month && is_digit(bytes[5]) && is_digit(bytes[6]))
        by {
        lemma_digits_of(timestamp.month, bytes[5], bytes[6]);
    }
    assert(two_digits(bytes, 8) == timestamp.day && is_digit(bytes[8]) && is_digit(bytes[9]))
        by {
        lemma_digits_of(timestamp.day, bytes[8], bytes[9]);
    }
    assert(two_digits(bytes, 11) == timestamp.hour && is_digit(bytes[11]) && is_digit(bytes[12]))
        by {
        lemma_digits_of(timestamp.hour, bytes[11], bytes[12]);
    }
    assert(two_digits(bytes, 14) == timestamp.minute && is_digit(bytes[14]) && is_digit(
        bytes[15],
    )) by {
        lemma_digits_of(timestamp.minute, bytes[14], bytes[15]);
    }
    assert(two_digits(bytes, 17) == timestamp.second && is_digit(bytes[17]) && is_digit(
        bytes[18],
    )) by {
        lemma_digits_of(timestamp.second, bytes[17], bytes[18]);
    }
    assert(bytes[4] == HYPHEN && bytes[7] == HYPHEN && bytes[10] == LETTER_T && bytes[13] == COLON
        && bytes[16] == COLON);
    assert(matches_pattern(bytes));
    assert(pattern_fields(bytes) == timestamp);
}

/// The two digits of a number below 100 are the bytes that it was read from.
proof fn lemma_two_digits(bytes: Seq<u8>, at: int)
    requires
        0 <= at,
        at + 1 < bytes.len(),
        is_digit(bytes[at]),
        is_digit(bytes[at + 1]),
    ensures
        two_digits(bytes, at) <= 99,
        digit_char(two_digits(bytes, at) / 10 % 10) as u8 == bytes[at],
        digit_char(two_digits(bytes, at) / 10) as u8 == bytes[at],
        digit_char(two_digits(bytes, at) % 10) as u8 == bytes[at + 1],
{
}

/// The four digits of a year are the digits of its two halves.
proof fn lemma_year_digits(century: nat, rest: nat)
    requires
        century <= 99,
        rest <= 99,
    ensures
        (century * 100 + rest) / 1000 % 10 == century / 10,
        (century * 100 + rest) / 100 % 10 == century % 10,
        (century * 100 + rest) / 10 % 10 == rest / 10,
        (century * 100 + rest) % 10 == rest % 10,
{
}

/// A text that denotes a timestamp is the text of that timestamp.
pub proof fn lemma_text_of_parsed(text: Seq<char>)
    requires
        spec_parse(text) is Some,
    ensures
        spec_parse(text).unwrap().valid(),
        spec_parse(text).unwrap().text() == text,
{
    let bytes = encode_utf8(text);
    let timestamp = pattern_fields(bytes);
    let written = timestamp.text();
    lemma_two_digits(bytes, 0);
    lemma_two_digits(bytes, 2);
    lemma_two_digits(bytes, 5);
    lemma_two_digits(bytes, 8);
    lemma_two_digits(bytes, 11);
    lemma_two_digits(bytes, 14);
    lemma_two_digits(bytes, 17);
    lemma_year_digits(two_digits(bytes, 0), two_digits(bytes, 2));
    assert(is_ascii_chars(written));
    is_ascii_chars_encode_utf8(written);
    let rewritten = encode_utf8(written);
    assert forall|i: int| 0 <= i < 19 implies rewritten[i] == bytes[i] by {
        assert(rewritten[i] == written[i] as u8);
    }
    assert(rewritten =~= bytes);
    encode_utf8_decode_utf8(text);
    encode_utf8_decode_utf8(written);
}

/// The ordinals of valid timestamps order them as the calendar does, field
/// by field, and tell them apart.
pub proof fn lemma_ordinal(earlier: TimestampView, later: TimestampView)
    requires
        earlier.valid(),
        later.valid(),
    ensures
        earlier.ordinal() == later.ordinal() <==> earlier == later,
        earlier.ordinal() < later.ordinal() <==> {
            ||| earlier.year < later.year
            ||| earlier.year == later.year && earlier.month < later.month
            ||| earlier.year == later.year && earlier.month == later.month && earlier.day
                < later.day
            ||| earlier.year == later.year && earlier.month == later.month && earlier.day
                == later.day && earlier.hour < later.hour
            ||| earlier.year == later.year && earlier.month == later.month && earlier.day
                == later.day && earlier.hour == later.hour && earlier.minute < later.minute
            ||| earlier.year == later.year && earlier.month == later.month && earlier.day
                == later.day && earlier.hour == later.hour && earlier.minute == later.minute
                && earlier.second < later.second
        },
{
}

/// A local date and time of day, to the second.
#[derive(Clone, Copy, Debug, PartialEq, Eq, Structural)]
pub struct Timestamp {
    year: u16,
    month: u8,
    day: u8,
    hour: u8,
    minute: u8,
    second: u8,
}

impl View for Timestamp {
    type V = TimestampView;

    closed spec fn view(&self) -> TimestampView {
        TimestampView {
            year: self.year as nat,
            month: self.month as nat,
            day: self.day as nat,
            hour: self.hour as nat,
            minute: self.minute as nat,
            second: self.second as nat,
        }
    }
}

/// Return the number of days of a month of a year.
fn month_length(year: u16, month: u8) -> (days: u8)
    ensures
        days == days_in_month(year as nat, month as nat),
{
    if month == 2 {
        if year % 4 == 0 && (year % 100 != 0 || year % 400 == 0) {
            29
        } else {
            28
        }
    } else if month == 4 || month == 6 || month == 9 || month == 11 {
        30
    } else {
        31
    }
}

impl Timestamp {
    /// Every timestamp is valid.
    #[verifier::type_invariant]
    pub open spec fn well_formed(self) -> bool {
        self@.valid()
    }

    /// Timestamps with the same numbers are the same timestamp.
    pub proof fn lemma_same_view(self, other: Timestamp)
        ensures
            self@ == other@ <==> self == other,
    {
    }

    /// Create a timestamp from its numbers, if they are valid.
    pub fn new(year: u16, month: u8, day: u8, hour: u8, minute: u8, second: u8) -> (timestamp:
        Option<Timestamp>)
        ensures
            match timestamp {
                Some(timestamp) => timestamp@.valid() && timestamp@ == (TimestampView {
                    year: year as nat,
                    month: month as nat,
                    day: day as nat,
                    hour: hour as nat,
                    minute: minute as nat,
                    second: second as nat,
                }),
                None => !(TimestampView {
                    year: year as nat,
                    month: month as nat,
                    day: day as nat,
                    hour: hour as nat,
                    minute: minute as nat,
                    second: second as nat,
                }).valid(),
            },
    {
        if year <= 9999 && 1 <= month && month <= 12 && 1 <= day && day <= month_length(
            year,
            month,
        ) && hour <= 23 && minute <= 59 && second <= 60 {
            Some(Timestamp { year, month, day, hour, minute, second })
        } else {
            None
        }
    }

    /// The year, from 0 to 9999.
    pub fn year(&self) -> (year: u16)
        ensures
            year == self@.year,
            self@.valid(),
    {
        proof {
            use_type_invariant(self);
        }
        self.year
    }

    /// The month, from 1 to 12.
    pub fn month(&self) -> (month: u8)
        ensures
            month == self@.month,
    {
        self.month
    }

    /// The day of the month, from 1.
    pub fn day(&self) -> (day: u8)
        ensures
            day == self@.day,
    {
        self.day
    }

    /// The hour, from 0 to 23.
    pub fn hour(&self) -> (hour: u8)
        ensures
            hour == self@.hour,
    {
        self.hour
    }

    /// The minute, from 0 to 59.
    pub fn minute(&self) -> (minute: u8)
        ensures
            minute == self@.minute,
    {
        self.minute
    }

    /// The second, from 0 to 60.
    pub fn second(&self) -> (second: u8)
        ensures
            second == self@.second,
    {
        self.second
    }

    /// Return a number that grows with time.
    pub fn ordinal(&self) -> (ordinal: u64)
        ensures
            ordinal == self@.ordinal(),
            self@.valid(),
    {
        proof {
            use_type_invariant(self);
        }
        let days: u64 = (self.year as u64 * 13 + self.month as u64) * 32 + self.day as u64;
        ((days * 24 + self.hour as u64) * 60 + self.minute as u64) * 61 + self.second as u64
    }

    /// True when this timestamp is earlier than the other.
    pub fn is_before(&self, other: &Timestamp) -> (before: bool)
        ensures
            before == (self@.ordinal() < other@.ordinal()),
    {
        self.ordinal() < other.ordinal()
    }

    /// Parse a timestamp in the pattern `YYYY-MM-DDTHH:MM:SS`.
    ///
    /// Returns `None` if the text does not follow the pattern or does not
    /// denote a second of a day of the calendar.
    pub fn parse(text: &str) -> (timestamp: Option<Timestamp>)
        ensures
            match timestamp {
                Some(timestamp) => spec_parse(text@) == Some(timestamp@),
                None => spec_parse(text@) is None,
            },
    {
        let bytes = text.as_bytes();
        if bytes.len() != TEXT_LENGTH {
            return None;
        }
        let mut i: usize = 0;
        while i < TEXT_LENGTH
            invariant
                i <= 19,
                bytes@.len() == 19,
                bytes@ == encode_utf8(text@),
                forall|j: int|
                    0 <= j < i ==> if j == 4 || j == 7 {
                        bytes@[j] == HYPHEN
                    } else if j == 10 {
                        bytes@[j] == LETTER_T
                    } else if j == 13 || j == 16 {
                        bytes@[j] == COLON
                    } else {
                        is_digit(#[trigger] bytes@[j])
                    },
            decreases 19 - i,
        {
            let byte: u8 = bytes[i];
            let expected = if i == 4 || i == 7 {
                byte == HYPHEN
            } else if i == 10 {
                byte == LETTER_T
            } else if i == 13 || i == 16 {
                byte == COLON
            } else {
                ZERO <= byte && byte <= 0x39
            };
            if !expected {
                return None;
            }
            i += 1;
        }
        assert(is_digit(bytes@[0]) && is_digit(bytes@[1]) && is_digit(bytes@[2]) && is_digit(
            bytes@[3],
        ));
        assert(is_digit(bytes@[5]) && is_digit(bytes@[6]) && is_digit(bytes@[8]) && is_digit(
            bytes@[9],
        ));
        assert(is_digit(bytes@[11]) && is_digit(bytes@[12]) && is_digit(bytes@[14]) && is_digit(
            bytes@[15],
        ));
        assert(is_digit(bytes@[17]) && is_digit(bytes@[18]));
        assert(bytes@[4] == HYPHEN && bytes@[7] == HYPHEN && bytes@[10] == LETTER_T);
        assert(bytes@[13] == COLON && bytes@[16] == COLON);
        assert(matches_pattern(bytes@));
        let century: u16 = pair(bytes, 0) as u16;
        let year: u16 = century * 100 + pair(bytes, 2) as u16;
        Timestamp::new(
            year,
            pair(bytes, 5),
            pair(bytes, 8),
            pair(bytes, 11),
            pair(bytes, 14),
            pair(bytes, 17),
        )
    }

    /// Write the timestamp in the pattern `YYYY-MM-DDTHH:MM:SS`.
    pub fn format(&self) -> (text: String)
        ensures
            text@ == self@.text(),
            self@.valid(),
    {
        proof {
            use_type_invariant(self);
            reveal_strlit("-");
            reveal_strlit("T");
            reveal_strlit(":");
        }
        let mut text = String::new();
        text.append(digit_str((self.year / 1000 % 10) as u8));
        text.append(digit_str((self.year / 100 % 10) as u8));
        text.append(digit_str((self.year / 10 % 10) as u8));
        text.append(digit_str((self.year % 10) as u8));
        text.append("-");
        text.append(digit_str(self.month / 10 % 10));
        text.append(digit_str(self.month % 10));
        text.append("-");
        text.append(digit_str(self.day / 10 % 10));
        text.append(digit_str(self.day % 10));
        text.append("T");
        text.append(digit_str(self.hour / 10 % 10));
        text.append(digit_str(self.hour % 10));
        text.append(":");
        text.append(digit_str(self.minute / 10 % 10));
        text.append(digit_str(self.minute % 10));
        text.append(":");
        text.append(digit_str(self.second / 10 % 10));
        text.append(digit_str(self.second % 10));
        assert(text@ =~= self@.text());
        text
    }
}

/// Return the number that the two digits at the given place denote.
fn pair(bytes: &[u8], at: usize) -> (number: u8)
    requires
        at + 1 < bytes@.len(),
        is_digit(bytes@[at as int]),
        is_digit(bytes@[at + 1]),
    ensures
        number == two_digits(bytes@, at as int),
        number <= 99,
{
    (bytes[at] - ZERO) * 10 + (bytes[at + 1] - ZERO)
}

} // verus!
