use bank::money::{digit, digit_text, format_amount, parse_amount, parse_decimal, value_of_digit};

#[test]
fn amounts_are_written_with_two_decimals() {
    assert_eq!(format_amount(0), "0.00");
    assert_eq!(format_amount(5), "0.05");
    assert_eq!(format_amount(50), "0.50");
    assert_eq!(format_amount(100), "1.00");
    assert_eq!(format_amount(10_000), "100.00");
    assert_eq!(format_amount(123_456), "1234.56");
    assert_eq!(format_amount(100_000_001), "1000000.01");
    assert_eq!(format_amount(u64::MAX), "184467440737095516.15");
}

#[test]
fn digits_are_told_and_valued() {
    for (value, c) in "0123456789".chars().enumerate() {
        assert!(digit(c));
        assert_eq!(value_of_digit(c), value as u64);
        assert_eq!(digit_text(value as u64), c.to_string());
    }
    for c in ['/', ':', 'a', ' ', '.', '-', '\u{0663}'] {
        assert!(!digit(c));
    }
}

#[test]
fn plain_numerals_are_read_in_cents() {
    assert_eq!(parse_amount("100"), 10_000);
    assert_eq!(parse_amount("100.00"), 10_000);
    assert_eq!(parse_amount("0.01"), 1);
    assert_eq!(parse_amount("12.5"), 1_250);
    assert_eq!(parse_amount("00012.30"), 1_230);
    assert_eq!(parse_amount("0"), 0);
    assert_eq!(parse_amount("0.00"), 0);
}

#[test]
fn a_point_may_come_first_or_last() {
    assert_eq!(parse_amount(".5"), 50);
    assert_eq!(parse_amount("5."), 500);
    assert_eq!(parse_amount("-.25"), -25);
}

#[test]
fn a_sign_is_read() {
    assert_eq!(parse_amount("+7"), 700);
    assert_eq!(parse_amount("-3.10"), -310);
    assert_eq!(parse_amount("-0"), 0);
}

#[test]
fn white_space_around_a_numeral_is_left_aside() {
    assert_eq!(parse_amount(" 12.5 \n"), 1_250);
    assert_eq!(parse_amount("\t200\r\n"), 20_000);
    assert_eq!(parse_amount("\u{3000}12\u{a0}"), 1_200);
}

#[test]
fn what_lies_beyond_the_cent_is_rounded() {
    assert_eq!(parse_amount("0.004"), 0);
    assert_eq!(parse_amount("0.005"), 1);
    assert_eq!(parse_amount("12.344999"), 1_234);
    assert_eq!(parse_amount("12.345678"), 1_235);
    assert_eq!(parse_amount("1.995"), 200);
    assert_eq!(parse_amount("-1.005"), -101);
    assert_eq!(parse_amount("1.0049"), 100);
}

#[test]
fn text_that_is_no_numeral_reads_as_zero() {
    for text in [
        "", " ", ".", "+", "-", "+.", "abc", "1e3", "1,50", "12.3.4", "--1", "+-1", "1 2", "12a",
        "a12", "1.2a", "inf", "NaN", "0x10", "1_000", "R$ 5",
    ] {
        assert_eq!(parse_amount(text), 0, "{:?}", text);
    }
}

#[test]
fn amounts_beyond_the_range_read_as_zero() {
    assert_eq!(parse_amount("92233720368547758.07"), i64::MAX);
    assert_eq!(parse_amount("-92233720368547758.07"), -i64::MAX);
    assert_eq!(parse_amount("92233720368547758.074"), i64::MAX);
    assert_eq!(parse_amount("92233720368547758.08"), 0);
    assert_eq!(parse_amount("92233720368547758.075"), 0);
    assert_eq!(parse_amount("-92233720368547758.08"), 0);
    assert_eq!(parse_amount("92233720368547759"), 0);
    assert_eq!(parse_amount("99999999999999999999999999999999"), 0);
    assert_eq!(parse_amount("99999999999999999999999999999999x"), 0);
}

#[test]
fn a_numeral_is_read_without_trimming() {
    let numeral: Vec<char> = "45.67".chars().collect();
    assert_eq!(parse_decimal(&numeral), 4_567);
    let padded: Vec<char> = " 45.67".chars().collect();
    assert_eq!(parse_decimal(&padded), 0);
}

#[test]
fn what_is_written_reads_back() {
    for cents in [0u64, 1, 9, 10, 99, 100, 101, 12_345, 50_000, 1_000_000, i64::MAX as u64] {
        assert_eq!(parse_amount(&format_amount(cents)), cents as i64);
    }
}
