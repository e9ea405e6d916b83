use puzzle_nft::text::{
    format_bool, format_hex_u64, format_i64, format_u64, parse_bool, parse_hex_u64, parse_i64,
    parse_u64, parse_u8,
};

#[test]
fn decimal_and_hex_formats() {
    assert_eq!(format_u64(0), "0");
    assert_eq!(format_u64(186), "186");
    assert_eq!(format_u64(u64::MAX), "18446744073709551615");
    assert_eq!(format_hex_u64(255), "ff");
    assert_eq!(format_hex_u64(0x54cef7), "54cef7");
    assert_eq!(format_i64(-42), "-42");
    assert_eq!(format_i64(i64::MIN), "-9223372036854775808");
    assert_eq!(format_bool(true), "true");
    assert_eq!(format_bool(false), "false");
}

#[test]
fn parses_accept_only_digits_that_fit() {
    assert_eq!(parse_u64("18446744073709551615"), Some(u64::MAX));
    assert_eq!(parse_u64("18446744073709551616"), None);
    assert_eq!(parse_u64(""), None);
    assert_eq!(parse_u64("12a"), None);
    assert_eq!(parse_u64("007"), Some(7));
    assert_eq!(parse_hex_u64("54cef7"), Some(0x54cef7));
    assert_eq!(parse_hex_u64("54CEF7"), None);
    assert_eq!(parse_u8("255"), Some(255));
    assert_eq!(parse_u8("256"), None);
    assert_eq!(parse_i64("-9223372036854775808"), Some(i64::MIN));
    assert_eq!(parse_i64("-9223372036854775809"), None);
    assert_eq!(parse_i64("9223372036854775807"), Some(i64::MAX));
    assert_eq!(parse_i64("-"), None);
    assert_eq!(parse_bool(&"true".to_string()), Some(true));
    assert_eq!(parse_bool(&"True".to_string()), None);
}
