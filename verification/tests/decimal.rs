use iron_bin::decimal::parse_u64;

#[test]
fn parse_u64_reads_digits() {
    assert_eq!(parse_u64("0"), Some(0));
    assert_eq!(parse_u64("42"), Some(42));
    assert_eq!(parse_u64("007"), Some(7));
    assert_eq!(parse_u64("9999999999"), Some(9_999_999_999));
}

#[test]
fn parse_u64_accepts_a_leading_plus() {
    assert_eq!(parse_u64("+5"), Some(5));
    assert_eq!(parse_u64("+5"), "+5".parse::<u64>().ok());
}

#[test]
fn parse_u64_rejects_what_is_no_number() {
    for text in ["", "+", "-", "-1", "++1", "1+", " 1", "1 ", "1_000", "12a", "a", "0x10", "1.5", "\u{663}"] {
        assert_eq!(parse_u64(text), None, "{text:?}");
        assert_eq!(parse_u64(text), text.parse::<u64>().ok(), "{text:?}");
    }
}

#[test]
fn parse_u64_stops_at_the_largest_number() {
    assert_eq!(parse_u64("18446744073709551615"), Some(u64::MAX));
    assert_eq!(parse_u64("18446744073709551616"), None);
    assert_eq!(parse_u64("18446744073709551620"), None);
    assert_eq!(parse_u64("99999999999999999999999999"), None);
    assert_eq!(parse_u64("000000000000000000000000001"), Some(1));
}
