use iron_bin::percent::{decode, encode};

#[test]
fn encode_leaves_unreserved_characters() {
    assert_eq!(encode("abcXYZ019-._~"), "abcXYZ019-._~");
}

#[test]
fn encode_escapes_every_other_byte_in_upper_case() {
    assert_eq!(encode("/abc/def/ghi.xyz"), "%2Fabc%2Fdef%2Fghi.xyz");
    assert_eq!(encode("a b"), "a%20b");
    assert_eq!(encode("100%"), "100%25");
    assert_eq!(encode("\u{1f47e} Exterminate!"), "%F0%9F%91%BE%20Exterminate%21");
    assert_eq!(encode("\n"), "%0A");
}

#[test]
fn encode_of_nothing_is_nothing() {
    assert_eq!(encode(""), "");
}

#[test]
fn decode_replaces_escapes_of_either_case() {
    assert_eq!(decode("%2Fabc%2fdef"), Some(String::from("/abc/def")));
    assert_eq!(decode("%F0%9F%91%BE%20Exterminate%21"), Some(String::from("\u{1f47e} Exterminate!")));
}

#[test]
fn decode_keeps_a_percent_sign_that_starts_no_escape() {
    assert_eq!(decode("100%"), Some(String::from("100%")));
    assert_eq!(decode("%"), Some(String::from("%")));
    assert_eq!(decode("%4"), Some(String::from("%4")));
    assert_eq!(decode("%zz"), Some(String::from("%zz")));
    assert_eq!(decode("%4z"), Some(String::from("%4z")));
    assert_eq!(decode("%%41"), Some(String::from("%A")));
    assert_eq!(decode("%4%41"), Some(String::from("%4A")));
}

#[test]
fn decode_keeps_a_plus_sign() {
    assert_eq!(decode("a+b"), Some(String::from("a+b")));
}

#[test]
fn decode_fails_on_bytes_that_are_not_utf8() {
    assert_eq!(decode("%FF"), None);
    assert_eq!(decode("abc%C3"), None);
    assert_eq!(decode("%F1%F2%F3%C0%C1%C2"), None);
}

#[test]
fn decode_undoes_encode() {
    for text in ["", "plain", "/abc/def/ghi.xyz", "a b%c", "%41", "\u{e9}t\u{e9}/\u{1f47e}", "tab\there", "100%%"] {
        assert_eq!(decode(&encode(text)), Some(String::from(text)));
    }
}
