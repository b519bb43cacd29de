use notepad::jasper_ji::decimal::{format_u32, parse_u32};

#[test]
fn format_small_and_large_numbers() {
    assert_eq!(format_u32(0), "0");
    assert_eq!(format_u32(7), "7");
    assert_eq!(format_u32(10), "10");
    assert_eq!(format_u32(1234567890), "1234567890");
    assert_eq!(format_u32(u32::MAX), "4294967295");
}

#[test]
fn format_agrees_with_to_string() {
    for n in [0u32, 1, 9, 10, 99, 100, 65535, 65536, 999_999_999, 4_000_000_000, u32::MAX] {
        assert_eq!(format_u32(n), n.to_string());
    }
}

#[test]
fn parse_accepts_what_from_str_accepts() {
    assert_eq!(parse_u32("0"), Some(0));
    assert_eq!(parse_u32("42"), Some(42));
    assert_eq!(parse_u32("+42"), Some(42));
    assert_eq!(parse_u32("007"), Some(7));
    assert_eq!(parse_u32("4294967295"), Some(u32::MAX));
}

#[test]
fn parse_refuses_what_from_str_refuses() {
    assert_eq!(parse_u32(""), None);
    assert_eq!(parse_u32("+"), None);
    assert_eq!(parse_u32("-1"), None);
    assert_eq!(parse_u32("-0"), None);
    assert_eq!(parse_u32("++1"), None);
    assert_eq!(parse_u32("12a"), None);
    assert_eq!(parse_u32(" 1"), None);
    assert_eq!(parse_u32("4294967296"), None);
    assert_eq!(parse_u32("99999999999999999999999"), None);
    assert_eq!(parse_u32("١٢"), None);
}

#[test]
fn parse_matches_std_on_many_inputs() {
    let inputs = [
        "", "+", "-", "0", "+0", "-0", "1", "+1", "01", "10", "4294967295", "4294967296",
        "+4294967295", "00000000000000004294967295", "1_000", "1.0", "abc", "12 ", "٣", "+-1",
    ];
    for s in inputs {
        assert_eq!(parse_u32(s), s.parse::<u32>().ok(), "input {:?}", s);
    }
}

#[test]
fn parse_reads_back_format() {
    for n in [0u32, 5, 42, 1000, 123456, u32::MAX] {
        assert_eq!(parse_u32(&format_u32(n)), Some(n));
    }
}
