use canbus_core::config::parse_hex_or_decimal;

#[test]
fn decimal_numbers_parse() {
    assert_eq!(parse_hex_or_decimal("0"), Some(0));
    assert_eq!(parse_hex_or_decimal("242"), Some(242));
    assert_eq!(parse_hex_or_decimal("+17"), Some(17));
    assert_eq!(parse_hex_or_decimal("4294967295"), Some(u32::MAX));
    assert_eq!(parse_hex_or_decimal("007"), Some(7));
}

#[test]
fn hex_numbers_parse() {
    assert_eq!(parse_hex_or_decimal("0xF2"), Some(0xF2));
    assert_eq!(parse_hex_or_decimal("0xf2"), Some(0xF2));
    assert_eq!(parse_hex_or_decimal("0x18FF50E5"), Some(0x18FF_50E5));
    assert_eq!(parse_hex_or_decimal("0xFFFFFFFF"), Some(u32::MAX));
    assert_eq!(parse_hex_or_decimal("0x+1A"), Some(0x1A));
}

#[test]
fn malformed_numbers_are_refused() {
    assert_eq!(parse_hex_or_decimal(""), None);
    assert_eq!(parse_hex_or_decimal("+"), None);
    assert_eq!(parse_hex_or_decimal("0x"), None);
    assert_eq!(parse_hex_or_decimal("-1"), None);
    assert_eq!(parse_hex_or_decimal("12a"), None);
    assert_eq!(parse_hex_or_decimal("0X1F"), None);
    assert_eq!(parse_hex_or_decimal("0xG1"), None);
    assert_eq!(parse_hex_or_decimal(" 1"), None);
}

#[test]
fn numbers_beyond_32_bits_are_refused() {
    assert_eq!(parse_hex_or_decimal("4294967296"), None);
    assert_eq!(parse_hex_or_decimal("0x100000000"), None);
    assert_eq!(parse_hex_or_decimal("99999999999999999999"), None);
}

#[test]
fn parsing_agrees_with_std() {
    for text in ["1", "65535", "123456789", "4294967295", "4294967296", "x1", "+0", "++1"] {
        assert_eq!(parse_hex_or_decimal(text), text.parse::<u32>().ok());
    }
    for digits in ["0", "ff", "FF", "dead", "BEEF", "100000000", "z"] {
        let text = format!("0x{}", digits);
        assert_eq!(parse_hex_or_decimal(&text), u32::from_str_radix(digits, 16).ok());
    }
}
