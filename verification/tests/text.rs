use redis::text::{int_to_string, parse_i64, parse_u16, str_eq};

#[test]
fn int_to_string_renders_negative_zero_and_extremes() {
    assert_eq!(int_to_string(-12), "-12");
    assert_eq!(int_to_string(0), "0");
    assert_eq!(int_to_string(-1), "-1");
    assert_eq!(int_to_string(i64::MAX), "9223372036854775807");
    assert_eq!(int_to_string(i64::MIN), "-9223372036854775808");
}

#[test]
fn parse_i64_reads_decimal_text() {
    assert_eq!(parse_i64(b"42"), Some(42));
    assert_eq!(parse_i64(b"-1"), Some(-1));
    assert_eq!(parse_i64(b"007"), Some(7));
    assert_eq!(parse_i64(b"9223372036854775807"), Some(i64::MAX));
    assert_eq!(parse_i64(b"-9223372036854775808"), Some(i64::MIN));
}

#[test]
fn parse_i64_refuses_what_is_not_an_i64() {
    assert_eq!(parse_i64(b""), None);
    assert_eq!(parse_i64(b"-"), None);
    assert_eq!(parse_i64(b"+1"), None);
    assert_eq!(parse_i64(b"12a"), None);
    assert_eq!(parse_i64(b" 1"), None);
    assert_eq!(parse_i64(b"9223372036854775808"), None);
    assert_eq!(parse_i64(b"-9223372036854775809"), None);
    assert_eq!(parse_i64(b"99999999999999999999999"), None);
}

#[test]
fn int_text_reads_back() {
    for v in [0i64, 1, -1, 10, -10, 6379, i64::MAX, i64::MIN] {
        assert_eq!(parse_i64(int_to_string(v).as_bytes()), Some(v));
    }
}

#[test]
fn parse_u16_reads_port_numbers() {
    assert_eq!(parse_u16(b"6379"), Some(6379));
    assert_eq!(parse_u16(b"+80"), Some(80));
    assert_eq!(parse_u16(b"65535"), Some(65535));
    assert_eq!(parse_u16(b"0"), Some(0));
}

#[test]
fn parse_u16_refuses_what_is_not_a_port() {
    assert_eq!(parse_u16(b"65536"), None);
    assert_eq!(parse_u16(b"-1"), None);
    assert_eq!(parse_u16(b""), None);
    assert_eq!(parse_u16(b"+"), None);
    assert_eq!(parse_u16(b"80 "), None);
    assert_eq!(parse_u16(b"1000000000"), None);
}

#[test]
fn str_eq_compares_texts() {
    assert!(str_eq("psync", "psync"));
    assert!(!str_eq("psync", "PSYNC"));
    assert!(!str_eq("ping", "pin"));
    assert!(str_eq("", ""));
    assert!(str_eq("héllo", "héllo"));
}
