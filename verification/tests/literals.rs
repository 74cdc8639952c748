use ebml_schema::literal::parse_u64;

#[test]
fn decimal_literals_parse() {
    assert_eq!(parse_u64("0"), Some(0));
    assert_eq!(parse_u64("42"), Some(42));
    assert_eq!(parse_u64("007"), Some(7));
    assert_eq!(parse_u64("18446744073709551615"), Some(u64::MAX));
}

#[test]
fn hex_literals_parse() {
    assert_eq!(parse_u64("0x0"), Some(0));
    assert_eq!(parse_u64("0x4489"), Some(0x4489));
    assert_eq!(parse_u64("0X18538067"), Some(0x18538067));
    assert_eq!(parse_u64("0xAbCdEf"), Some(0xABCDEF));
    assert_eq!(parse_u64("0xFFFFFFFFFFFFFFFF"), Some(u64::MAX));
}

#[test]
fn malformed_literals_are_rejected() {
    assert_eq!(parse_u64(""), None);
    assert_eq!(parse_u64("0x"), None);
    assert_eq!(parse_u64("12ab"), None);
    assert_eq!(parse_u64("abc"), None);
    assert_eq!(parse_u64("0xG1"), None);
    assert_eq!(parse_u64("-1"), None);
    assert_eq!(parse_u64("1 2"), None);
}

#[test]
fn out_of_range_literals_are_rejected() {
    assert_eq!(parse_u64("18446744073709551616"), None);
    assert_eq!(parse_u64("0x10000000000000000"), None);
    assert_eq!(parse_u64("99999999999999999999999999"), None);
}
