use async_patterns::decimal::{decimal_text, parse_i32, parse_usize, signed_decimal_text};

#[test]
fn numbers_are_written_in_decimal() {
    assert_eq!(decimal_text(0), "0");
    assert_eq!(decimal_text(9), "9");
    assert_eq!(decimal_text(10), "10");
    assert_eq!(decimal_text(4096), "4096");
    assert_eq!(decimal_text(u64::MAX), "18446744073709551615");
    assert_eq!(signed_decimal_text(0), "0");
    assert_eq!(signed_decimal_text(-1), "-1");
    assert_eq!(signed_decimal_text(i32::MIN), "-2147483648");
    assert_eq!(signed_decimal_text(i32::MAX), "2147483647");
}

#[test]
fn signed_texts_are_read() {
    assert_eq!(parse_i32("42"), Some(42));
    assert_eq!(parse_i32("+42"), Some(42));
    assert_eq!(parse_i32("-42"), Some(-42));
    assert_eq!(parse_i32("-0"), Some(0));
    assert_eq!(parse_i32("00000000000000000007"), Some(7));
    assert_eq!(parse_i32("2147483647"), Some(i32::MAX));
    assert_eq!(parse_i32("-2147483648"), Some(i32::MIN));
    assert_eq!(parse_i32("2147483648"), None);
    assert_eq!(parse_i32("-2147483649"), None);
    assert_eq!(parse_i32("99999999999999999999999999"), None);
    assert_eq!(parse_i32(""), None);
    assert_eq!(parse_i32("+"), None);
    assert_eq!(parse_i32("-"), None);
    assert_eq!(parse_i32("--1"), None);
    assert_eq!(parse_i32("+-1"), None);
    assert_eq!(parse_i32(" 1"), None);
    assert_eq!(parse_i32("1 "), None);
    assert_eq!(parse_i32("1\r"), None);
    assert_eq!(parse_i32("1e3"), None);
    assert_eq!(parse_i32("four"), None);
}

#[test]
fn unsigned_texts_are_read() {
    assert_eq!(parse_usize("4"), Some(4));
    assert_eq!(parse_usize("+4"), Some(4));
    assert_eq!(parse_usize("-4"), None);
    assert_eq!(parse_usize("-0"), None);
    assert_eq!(parse_usize(""), None);
    assert_eq!(parse_usize("+"), None);
    assert_eq!(parse_usize(&usize::MAX.to_string()), Some(usize::MAX));
    assert_eq!(parse_usize(&(usize::MAX as u128 + 1).to_string()), None);
}

#[test]
fn texts_are_read_as_the_standard_library_reads_them() {
    let texts = [
        "0", "1", "-1", "+1", "007", "-007", "+007", "", "+", "-", "++1", "-+1", "1-", "1+", "0x1", "1_000", "1.0",
        "\u{0661}", "\u{ff11}", "2147483646", "2147483647", "2147483648", "-2147483647", "-2147483648", "-2147483649",
        "4294967295", "4294967296", "18446744073709551614", "18446744073709551615", "18446744073709551616",
        "18446744073709551620", "184467440737095516150", "9223372036854775808", "12a", "a12", "\n1", "1\n", "-\u{2013}1",
    ];
    for text in texts.iter() {
        assert_eq!(parse_i32(text), text.parse::<i32>().ok(), "{:?}", text);
        assert_eq!(parse_usize(text), text.parse::<usize>().ok(), "{:?}", text);
    }
}

#[test]
fn written_numbers_are_read_back() {
    let numbers = [0, 1, -1, 9, 10, -10, 99, 100, 12345, -54321, i32::MAX, i32::MIN, i32::MAX - 1, i32::MIN + 1];
    for number in numbers.iter() {
        let text = signed_decimal_text(*number);
        assert_eq!(text, number.to_string());
        assert_eq!(parse_i32(&text), Some(*number));
        assert!(!text.contains('\n') && !text.contains('\r'));
    }
    for count in [0usize, 1, 10, 4095, usize::MAX].iter() {
        assert_eq!(parse_usize(&decimal_text(*count as u64)), Some(*count));
    }
}
