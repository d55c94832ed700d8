use actuary::number::parse_u32;

#[test]
fn parse_u32_matches_std() {
    for s in ["", "+", "-", "0", "007", "100", "+5", "-5", "12a", "1.5", "4294967295", "4294967296", "99999999999999999999", "++1", " 1", "1000", "1001"] {
        assert_eq!(parse_u32(s), s.parse::<u32>().ok(), "input {:?}", s);
    }
}

#[test]
fn parse_u32_values() {
    assert_eq!(parse_u32("100"), Some(100));
    assert_eq!(parse_u32("+42"), Some(42));
    assert_eq!(parse_u32("4294967295"), Some(u32::MAX));
    assert_eq!(parse_u32("4294967296"), None);
    assert_eq!(parse_u32(""), None);
    assert_eq!(parse_u32("5."), None);
}
