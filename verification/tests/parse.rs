use typestate::parse::parse_u32;

#[test]
fn parses_plain_digits() {
    assert_eq!(parse_u32("5"), Some(5));
    assert_eq!(parse_u32("007"), Some(7));
    assert_eq!(parse_u32("1234"), Some(1234));
}

#[test]
fn parses_with_surrounding_whitespace() {
    assert_eq!(parse_u32(" 42 "), Some(42));
    assert_eq!(parse_u32("\t42\n"), Some(42));
    assert_eq!(parse_u32("\u{3000}7\u{3000}"), Some(7));
}

#[test]
fn parses_leading_plus() {
    assert_eq!(parse_u32("+7"), Some(7));
    assert_eq!(parse_u32(" +0 "), Some(0));
}

#[test]
fn parses_max_value() {
    assert_eq!(parse_u32("4294967295"), Some(4294967295));
}

#[test]
fn rejects_overflow() {
    assert_eq!(parse_u32("4294967296"), None);
    assert_eq!(parse_u32("99999999999999999999"), None);
}

#[test]
fn rejects_empty_and_blank() {
    assert_eq!(parse_u32(""), None);
    assert_eq!(parse_u32("   "), None);
    assert_eq!(parse_u32("\n"), None);
}

#[test]
fn rejects_sign_alone_and_doubled_sign() {
    assert_eq!(parse_u32("+"), None);
    assert_eq!(parse_u32("++1"), None);
}

#[test]
fn rejects_negative() {
    assert_eq!(parse_u32("-1"), None);
}

#[test]
fn rejects_non_digits() {
    assert_eq!(parse_u32("abc"), None);
    assert_eq!(parse_u32("12a"), None);
    assert_eq!(parse_u32("1 2"), None);
    assert_eq!(parse_u32("1.5"), None);
}

#[test]
fn parse_is_deterministic() {
    for line in ["5", "abc", "", " 42 ", "4294967296"] {
        assert_eq!(parse_u32(line), parse_u32(line));
    }
}

#[test]
fn agrees_with_standard_parse() {
    for line in [
        "5", "007", "+7", " 42 ", "4294967295", "4294967296", "", "+", "-1", "abc", "1 2",
    ] {
        assert_eq!(parse_u32(line), line.trim().parse::<u32>().ok());
    }
}
