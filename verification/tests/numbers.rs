use itch_shell::number::{parse_u32, u32_in};

#[test]
fn reads_plain_digits() {
    assert_eq!(parse_u32("800"), Some(800));
    assert_eq!(parse_u32("0"), Some(0));
    assert_eq!(parse_u32("7"), Some(7));
    assert_eq!(parse_u32("1234567890"), Some(1234567890));
}

#[test]
fn reads_leading_zeros_and_plus() {
    assert_eq!(parse_u32("000600"), Some(600));
    assert_eq!(parse_u32("+42"), Some(42));
    assert_eq!(parse_u32("+0"), Some(0));
    assert_eq!(parse_u32("00000000000000000000001"), Some(1));
}

#[test]
fn reads_up_to_the_largest_u32() {
    assert_eq!(parse_u32("4294967295"), Some(u32::MAX));
    assert_eq!(parse_u32("4294967296"), None);
    assert_eq!(parse_u32("42949672950"), None);
    assert_eq!(parse_u32("99999999999999999999999999"), None);
    assert_eq!(parse_u32("+4294967295"), Some(u32::MAX));
}

#[test]
fn refuses_what_is_no_number() {
    assert_eq!(parse_u32(""), None);
    assert_eq!(parse_u32("+"), None);
    assert_eq!(parse_u32("-"), None);
    assert_eq!(parse_u32("abc"), None);
    assert_eq!(parse_u32("-1"), None);
    assert_eq!(parse_u32("++1"), None);
    assert_eq!(parse_u32("1+"), None);
    assert_eq!(parse_u32(" 1"), None);
    assert_eq!(parse_u32("1 "), None);
    assert_eq!(parse_u32("1_000"), None);
    assert_eq!(parse_u32("12px"), None);
    assert_eq!(parse_u32("1.5"), None);
    assert_eq!(parse_u32("0x10"), None);
    assert_eq!(parse_u32("١٢٣"), None);
    assert_eq!(parse_u32("１２"), None);
}

#[test]
fn overflow_then_garbage_is_refused() {
    assert_eq!(parse_u32("99999999999x"), None);
}

#[test]
fn agrees_with_std() {
    let samples = [
        "", "0", "1", "+1", "-1", "+", "-", "++", "+-1", "800", "0800", "4294967295",
        "4294967296", "18446744073709551616", "abc", "1a", "a1", " 1", "1\n", "+ 1", "٣",
        "600", "+00", "००",
    ];
    for sample in samples {
        assert_eq!(parse_u32(sample), sample.parse::<u32>().ok(), "{:?}", sample);
    }
}

#[test]
fn u32_in_reads_characters() {
    assert_eq!(u32_in(&['6', '4', '0']), Some(640));
    assert_eq!(u32_in(&['+']), None);
    assert_eq!(u32_in(&[]), None);
    assert_eq!(u32_in(&['4', ' ']), None);
}
