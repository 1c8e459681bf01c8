use selfroles::ids::{holds_id, id_text, mention_id, mention_text, parse_snowflake};

#[test]
fn parses_plain_decimal_id() {
    assert_eq!(parse_snowflake("123456789012345678").unwrap(), 123456789012345678);
}

#[test]
fn parses_id_with_plus_sign() {
    assert_eq!(parse_snowflake("+42").unwrap(), 42);
}

#[test]
fn parses_id_with_leading_zeros() {
    assert_eq!(parse_snowflake("0007").unwrap(), 7);
}

#[test]
fn parses_largest_id() {
    assert_eq!(parse_snowflake("18446744073709551615").unwrap(), u64::MAX);
}

#[test]
fn rejects_zero_id() {
    assert!(parse_snowflake("0").is_err());
}

#[test]
fn rejects_empty_id() {
    assert!(parse_snowflake("").is_err());
    assert!(parse_snowflake("+").is_err());
}

#[test]
fn rejects_non_digits() {
    assert!(parse_snowflake("12a").is_err());
    assert!(parse_snowflake(" 12").is_err());
    assert!(parse_snowflake("-12").is_err());
}

#[test]
fn rejects_overflowing_id() {
    assert!(parse_snowflake("18446744073709551616").is_err());
}

#[test]
fn id_text_is_decimal() {
    assert_eq!(id_text(0), "0");
    assert_eq!(id_text(9), "9");
    assert_eq!(id_text(1234567890), "1234567890");
}

#[test]
fn id_text_parses_back() {
    for n in [1u64, 10, 99, 100, 987654321987654321, u64::MAX] {
        assert_eq!(parse_snowflake(&id_text(n)).unwrap(), n);
    }
}

#[test]
fn mentions_wrap_ids() {
    assert_eq!(mention_text("55"), "<@&55>");
    assert_eq!(mention_id(1001), "<@&1001>");
}

#[test]
fn holds_id_finds_members() {
    let ids = vec![3u64, 5, 8];
    assert!(holds_id(&ids, 5));
    assert!(!holds_id(&ids, 4));
    assert!(!holds_id(&Vec::new(), 4));
}
