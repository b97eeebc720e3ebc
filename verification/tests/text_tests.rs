use lifx_api_server::text::{parse_i64_safe, parse_u16_safe};

#[test]
fn test_parse_u16_safe_valid() {
    assert_eq!(parse_u16_safe("1234").unwrap(), 1234);
    assert_eq!(parse_u16_safe("0").unwrap(), 0);
    assert_eq!(parse_u16_safe("65535").unwrap(), 65535);
}

#[test]
fn test_parse_u16_safe_invalid() {
    assert!(parse_u16_safe("abc").is_err());
    assert!(parse_u16_safe("-1").is_err());
    assert!(parse_u16_safe("65536").is_err());
    assert!(parse_u16_safe("").is_err());
}

#[test]
fn test_parse_i64_safe_valid() {
    assert_eq!(parse_i64_safe("1234").unwrap(), 1234);
    assert_eq!(parse_i64_safe("0").unwrap(), 0);
    assert_eq!(parse_i64_safe("-1234").unwrap(), -1234);
}

#[test]
fn test_parse_i64_safe_invalid() {
    assert!(parse_i64_safe("abc").is_err());
    assert!(parse_i64_safe("").is_err());
    assert!(parse_i64_safe("12.34").is_err());
}

#[test]
fn test_parse_errors_name_the_text() {
    assert_eq!(parse_u16_safe("abc"), Err("Invalid u16 value: abc".to_string()));
    assert_eq!(parse_i64_safe("12.34"), Err("Invalid i64 value: 12.34".to_string()));
    assert_eq!(parse_u16_safe("+12"), Ok(12));
    assert_eq!(parse_u16_safe("00012"), Ok(12));
    assert_eq!(parse_u16_safe("+"), Err("Invalid u16 value: +".to_string()));
    assert_eq!(parse_u16_safe("1 "), Err("Invalid u16 value: 1 ".to_string()));
    assert_eq!(parse_i64_safe("-9223372036854775808"), Ok(i64::MIN));
    assert_eq!(parse_i64_safe("9223372036854775807"), Ok(i64::MAX));
    assert!(parse_i64_safe("9223372036854775808").is_err());
    assert!(parse_i64_safe("-9223372036854775809").is_err());
    assert!(parse_i64_safe("-").is_err());
    assert!(parse_i64_safe("--1").is_err());
    assert_eq!(parse_i64_safe("+7"), Ok(7));
}
