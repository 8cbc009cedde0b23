//! Percent-encoding of paths and names.
//!
//! Metadata records and size-cache records store paths percent-encoded. The
//! encoding works on the UTF-8 bytes of a text: every byte other than an
//! ASCII letter, an ASCII digit, `-`, `.`, `_` and `~` is written as `%` and
//! two upper-case hexadecimal digits.

use vstd::prelude::*;
use vstd::utf8::*;

verus! {

/// The byte `%`.
pub const PERCENT: u8 = 0x25;

/// True of the bytes that the encoding leaves as they are.
pub open spec fn is_unreserved(byte: u8) -> bool {
    ||| 0x30 <= byte <= 0x39
    ||| 0x41 <= byte <= 0x5a
    ||| 0x61 <= byte <= 0x7a
    ||| byte == 0x2d
    ||| byte == 0x2e
    ||| byte == 0x5f
    ||| byte == 0x7e
}

/// The upper-case hexadecimal digit for a value below 16.
pub open spec fn hex_digit(value: u8) -> u8
    recommends
        value < 16,
{
    if value < 10 {
        (0x30 + value) as u8
    } else {
        (0x41 + (value - 10)) as u8
    }
}

/// The value of a hexadecimal digit of either case, if the byte is one.
pub open spec fn hex_value(digit: u8) -> Option<u8> {
    if 0x30 <= digit <= 0x39 {
        Some((digit - 0x30) as u8)
    } else if 0x41 <= digit <= 0x46 {
        Some((digit - 0x41 + 10) as u8)
    } else if 0x61 <= digit <= 0x66 {
        Some((digit - 0x61 + 10) as u8)
    } else {
        None
    }
}

/// The encoding of one byte.
pub open spec fn encoded_byte(byte: u8) -> Seq<u8> {
    if is_unreserved(byte) {
        seq![byte]
    } else {
        seq![PERCENT, hex_digit(byte / 16), hex_digit(byte % 16)]
    }
}

/// The percent-encoding of a byte sequence.
pub open spec fn encoded_bytes(bytes: Seq<u8>) -> Seq<u8>
    decreases bytes.len(),
{
    if bytes.len() == 0 {
        Seq::empty()
    } else {
        encoded_byte(bytes[0]) + encoded_bytes(bytes.drop_first())
    }
}

/// True when the byte sequence starts with `%` and two hexadecimal digits.
pub open spec fn starts_with_escape(bytes: Seq<u8>) -> bool {
    &&& bytes.len() >= 3
    &&& bytes[0] == PERCENT
    &&& hex_value(bytes[1]) is Some
    &&& hex_value(bytes[2]) is Some
}

/// The byte sequence that a percent-encoded byte sequence stands for.
///
/// A `%` that is not followed by two hexadecimal digits stands for itself.
pub open spec fn decoded_bytes(bytes: Seq<u8>) -> Seq<u8>
    decreases bytes.len(),
{
    if bytes.len() == 0 {
        Seq::empty()
    } else if starts_with_escape(bytes) {
        seq![(hex_value(bytes[1]).unwrap() * 16 + hex_value(bytes[2]).unwrap()) as u8]
            + decoded_bytes(bytes.skip(3))
    } else {
        seq![bytes[0]] + decoded_bytes(bytes.drop_first())
    }
}

/// The percent-encoding of a text.
pub open spec fn spec_encode(text: Seq<char>) -> Seq<char> {
    decode_utf8(encoded_bytes(encode_utf8(text)))
}

/// The text that a percent-encoded text stands for, if its bytes are UTF-8.
pub open spec fn spec_decode(text: Seq<char>) -> Option<Seq<char>> {
    let bytes = decoded_bytes(encode_utf8(text));
    if valid_utf8(bytes) {
        Some(decode_utf8(bytes))
    } else {
        None
    }
}

/// True when every byte is an ASCII byte.
pub open spec fn all_ascii(bytes: Seq<u8>) -> bool {
    forall|i: int| 0 <= i < bytes.len() ==> #[trigger] bytes[i] <= 0x7f
}

/// True when every byte is `%` or a byte that the encoding leaves as it is.
pub open spec fn in_alphabet(bytes: Seq<u8>) -> bool {
    forall|i: int| 0 <= i < bytes.len() ==> is_unreserved(#[trigger] bytes[i]) || bytes[i] == PERCENT
}

/// An encoded byte sequence holds no byte but `%`, ASCII letters and digits,
/// `-`, `.`, `_` and `~`.
pub proof fn lemma_encoded_bytes_alphabet(bytes: Seq<u8>)
    ensures
        in_alphabet(encoded_bytes(bytes)),
    decreases bytes.len(),
{
    if bytes.len() > 0 {
        lemma_encoded_bytes_alphabet(bytes.drop_first());
        let first = encoded_byte(bytes[0]);
        let rest = encoded_bytes(bytes.drop_first());
        let encoded = encoded_bytes(bytes);
        assert(in_alphabet(first)) by {
            let high: u8 = bytes[0] / 16;
            let low: u8 = bytes[0] % 16;
            assert(is_unreserved(hex_digit(high)));
            assert(is_unreserved(hex_digit(low)));
        }
        assert forall|i: int| 0 <= i < encoded.len() implies is_unreserved(#[trigger] encoded[i])
            || encoded[i] == PERCENT by {
            if i < first.len() {
                assert(encoded[i] == first[i]);
            } else {
                assert(encoded[i] == rest[i - first.len()]);
            }
        }
    }
}

/// An encoded byte sequence holds ASCII bytes only.
pub proof fn lemma_encoded_bytes_ascii(bytes: Seq<u8>)
    ensures
        all_ascii(encoded_bytes(bytes)),
{
    lemma_encoded_bytes_alphabet(bytes);
    let encoded = encoded_bytes(bytes);
    assert forall|i: int| 0 <= i < encoded.len() implies #[trigger] encoded[i] <= 0x7f by {
        assert(is_unreserved(encoded[i]) || encoded[i] == PERCENT);
    }
}

/// A sequence of ASCII bytes is UTF-8.
pub proof fn lemma_ascii_is_utf8(bytes: Seq<u8>)
    requires
        all_ascii(bytes),
    ensures
        valid_utf8(bytes),
{
    assert(bytes.subrange(0, 0) =~= Seq::<u8>::empty());
    assert(valid_utf8(bytes.subrange(0, 0)));
    assert(partial_valid_utf8(bytes, 0));
    assert forall|i: int| 0 <= 0 <= i < bytes.len() <= bytes.len() implies #[trigger]
        is_leading_byte_width_1(bytes[i]) by {}
    partial_valid_utf8_extend_ascii_block(bytes, 0, bytes.len() as int);
    assert(bytes.subrange(0, bytes.len() as int) =~= bytes);
}

/// Decoding undoes encoding, byte for byte.
pub proof fn lemma_decode_encode_bytes(bytes: Seq<u8>)
    ensures
        decoded_bytes(encoded_bytes(bytes)) == bytes,
    decreases bytes.len(),
{
    if bytes.len() > 0 {
        let first = bytes[0];
        let rest = bytes.drop_first();
        let encoded = encoded_bytes(bytes);
        lemma_decode_encode_bytes(rest);
        if is_unreserved(first) {
            assert(encoded[0] == first);
            assert(!starts_with_escape(encoded));
            assert(encoded.drop_first() =~= encoded_bytes(rest));
        } else {
            let high: u8 = first / 16;
            let low: u8 = first % 16;
            assert(encoded[0] == PERCENT);
            assert(encoded[1] == hex_digit(high));
            assert(encoded[2] == hex_digit(low));
            assert(hex_value(hex_digit(high)) == Some(high));
            assert(hex_value(hex_digit(low)) == Some(low));
            assert(starts_with_escape(encoded));
            assert(encoded.skip(3) =~= encoded_bytes(rest));
            assert(high * 16 + low == first);
        }
        assert(decoded_bytes(encoded) =~= bytes);
    }
}

/// Decoding the encoding of a text gives the text back.
pub proof fn lemma_decode_encode(text: Seq<char>)
    ensures
        spec_decode(spec_encode(text)) == Some(text),
{
    let bytes = encode_utf8(text);
    let encoded = encoded_bytes(bytes);
    lemma_encoded_bytes_ascii(bytes);
    lemma_ascii_is_utf8(encoded);
    decode_utf8_encode_utf8(encoded);
    lemma_decode_encode_bytes(bytes);
    encode_utf8_valid_utf8(text);
    encode_utf8_decode_utf8(text);
}

/// Calls `urlencoding::encode`, which writes every byte of `text` other than
/// an ASCII letter or digit, `-`, `.`, `_` and `~` as `%` and two upper-case
/// hexadecimal digits.
#[verifier::external_body]
fn urlencoding_encode(text: &str) -> (encoded: String)
    ensures
        encode_utf8(encoded@) == encoded_bytes(encode_utf8(text@)),
{
    urlencoding::encode(text).into_owned()
}

/// Calls `urlencoding::decode`, which replaces each `%` that two hexadecimal
/// digits follow by the byte that they denote, leaves every other byte as it
/// is, and fails if and only if the bytes that come out are not UTF-8.
#[verifier::external_body]
fn urlencoding_decode(text: &str) -> (decoded: Option<String>)
    ensures
        decoded is Some <==> valid_utf8(decoded_bytes(encode_utf8(text@))),
        decoded is Some ==> encode_utf8(decoded.unwrap()@) == decoded_bytes(encode_utf8(text@)),
{
    match urlencoding::decode(text) {
        Ok(decoded) => Some(decoded.into_owned()),
        Err(_) => None,
    }
}

/// Percent-encode a text.
pub fn encode(text: &str) -> (encoded: String)
    ensures
        encoded@ == spec_encode(text@),
        encode_utf8(encoded@) == encoded_bytes(encode_utf8(text@)),
{
    let encoded = urlencoding_encode(text);
    proof {
        encode_utf8_decode_utf8(encoded@);
    }
    encoded
}

/// Decode a percent-encoded text.
///
/// Returns `None` if and only if the decoded bytes are not UTF-8.
pub fn decode(text: &str) -> (decoded: Option<String>)
    ensures
        match decoded {
            Some(decoded) => spec_decode(text@) == Some(decoded@),
            None => spec_decode(text@) is None,
        },
{
    let decoded = urlencoding_decode(text);
    proof {
        if decoded is Some {
            encode_utf8_decode_utf8(decoded.unwrap()@);
        }
    }
    decoded
}

} // verus!
