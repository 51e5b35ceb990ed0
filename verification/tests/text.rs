use brausi::text::{
    concat3, decimal_text, join_words, parse_bounded, parse_u32, parse_u64, same_text, trim,
    IntErrorKind,
};

#[test]
fn trims_unicode_whitespace() {
    assert_eq!(trim("  hello \t\n"), "hello");
    assert_eq!(trim("\u{3000}x y\u{2009}"), "x y");
    assert_eq!(trim("   "), "");
    assert_eq!(trim(""), "");
    assert_eq!(trim("a"), "a");
    assert_eq!(trim("\u{85}\u{a0}é\u{1680}"), "é");
}

#[test]
fn trim_agrees_with_std() {
    for s in ["", " ", " a ", "\r\n12\r\n", "\u{200b}x\u{200b}", "\u{202f}z", "b\u{205f}"] {
        assert_eq!(trim(s), s.trim());
    }
}

#[test]
fn parses_unsigned_numbers() {
    assert_eq!(parse_u32("0"), Ok(0));
    assert_eq!(parse_u32("+42"), Ok(42));
    assert_eq!(parse_u32("0042"), Ok(42));
    assert_eq!(parse_u32("4294967295"), Ok(u32::MAX));
    assert_eq!(parse_u64("18446744073709551615"), Ok(u64::MAX));
    assert_eq!(parse_bounded("100", 99), Err(IntErrorKind::PosOverflow));
}

#[test]
fn parse_error_kinds() {
    assert_eq!(parse_u32(""), Err(IntErrorKind::Empty));
    assert_eq!(parse_u32("+"), Err(IntErrorKind::InvalidDigit));
    assert_eq!(parse_u32("-"), Err(IntErrorKind::InvalidDigit));
    assert_eq!(parse_u32("-1"), Err(IntErrorKind::InvalidDigit));
    assert_eq!(parse_u32(" 1"), Err(IntErrorKind::InvalidDigit));
    assert_eq!(parse_u32("12a"), Err(IntErrorKind::InvalidDigit));
    assert_eq!(parse_u32("4294967296"), Err(IntErrorKind::PosOverflow));
    assert_eq!(parse_u32("99999999999x"), Err(IntErrorKind::PosOverflow));
    assert_eq!(parse_u64("18446744073709551616"), Err(IntErrorKind::PosOverflow));
}

#[test]
fn parse_agrees_with_std() {
    for s in ["", "+", "-", "0", "+0", "-0", "12", "1 2", "4294967295", "4294967296", "１"] {
        let ours = parse_u32(s).map_err(|k| k.describe().to_string());
        let std = s.parse::<u32>().map_err(|e| e.to_string());
        assert_eq!(ours, std, "{s:?}");
    }
}

#[test]
fn error_messages() {
    assert_eq!(
        IntErrorKind::Empty.describe(),
        "cannot parse integer from empty string"
    );
    assert_eq!(
        IntErrorKind::InvalidDigit.describe(),
        "invalid digit found in string"
    );
    assert_eq!(
        IntErrorKind::PosOverflow.describe(),
        "number too large to fit in target type"
    );
}

#[test]
fn writes_decimal() {
    assert_eq!(decimal_text(0), "0");
    assert_eq!(decimal_text(7), "7");
    assert_eq!(decimal_text(10), "10");
    assert_eq!(decimal_text(1024), "1024");
    assert_eq!(decimal_text(u32::MAX), "4294967295");
}

#[test]
fn decimal_reads_back() {
    for n in [0u32, 1, 9, 10, 99, 100, 65535, 1 << 31, u32::MAX] {
        assert_eq!(parse_u32(&decimal_text(n)), Ok(n));
    }
}

#[test]
fn joins_and_compares() {
    let words: Vec<String> = vec!["x".to_string(), "a".to_string(), "b c".to_string()];
    assert_eq!(join_words(&words, 1), "a b c");
    assert_eq!(join_words(&words, 3), "");
    assert_eq!(concat3("a", "b", "c"), "abc");
    assert!(same_text("go", "go"));
    assert!(!same_text("go", "og"));
}
