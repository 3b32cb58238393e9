use core_api_rs::text::{bool_to_string, infix, int_to_string, nat_to_string, parse_i32};
use core_api_rs::Text;

#[test]
fn decimal_of_naturals() {
    assert_eq!(nat_to_string(0), "0");
    assert_eq!(nat_to_string(7), "7");
    assert_eq!(nat_to_string(10), "10");
    assert_eq!(nat_to_string(1234567890), "1234567890");
    assert_eq!(nat_to_string(u64::MAX), "18446744073709551615");
}

#[test]
fn decimal_of_integers() {
    assert_eq!(int_to_string(0), "0");
    assert_eq!(int_to_string(-1), "-1");
    assert_eq!(int_to_string(42), "42");
    assert_eq!(int_to_string(i64::MIN), "-9223372036854775808");
    assert_eq!(int_to_string(i64::MAX), "9223372036854775807");
}

#[test]
fn booleans() {
    assert_eq!(bool_to_string(true), "true");
    assert_eq!(bool_to_string(false), "false");
}

#[test]
fn text_of_each_supported_type() {
    assert_eq!("abc".to_text(), "abc");
    assert_eq!(String::from("abc").to_text(), "abc");
    assert_eq!(true.to_text(), "true");
    assert_eq!((-12i32).to_text(), "-12");
    assert_eq!(i32::MIN.to_text(), "-2147483648");
    assert_eq!((-12i64).to_text(), "-12");
    assert_eq!(12u32.to_text(), "12");
    assert_eq!(12u64.to_text(), "12");
    assert_eq!("né".to_text(), "né");
}

#[test]
fn infix_joins_three_parts() {
    assert_eq!(infix(String::from("a"), "<=", String::from("b")), "a<=b");
    assert_eq!(infix(String::new(), "", String::new()), "");
}

#[test]
fn parse_i32_accepts_what_denotes_a_number() {
    assert_eq!(parse_i32("42"), Some(42));
    assert_eq!(parse_i32("0"), Some(0));
    assert_eq!(parse_i32("+5"), Some(5));
    assert_eq!(parse_i32("-5"), Some(-5));
    assert_eq!(parse_i32("-0"), Some(0));
    assert_eq!(parse_i32("0005"), Some(5));
    assert_eq!(parse_i32("2147483647"), Some(i32::MAX));
    assert_eq!(parse_i32("-2147483648"), Some(i32::MIN));
    assert_eq!(parse_i32("00000000000000000000012"), Some(12));
}

#[test]
fn parse_i32_rejects_everything_else() {
    assert_eq!(parse_i32(""), None);
    assert_eq!(parse_i32("+"), None);
    assert_eq!(parse_i32("-"), None);
    assert_eq!(parse_i32(" 5"), None);
    assert_eq!(parse_i32("5 "), None);
    assert_eq!(parse_i32("1_000"), None);
    assert_eq!(parse_i32("12a"), None);
    assert_eq!(parse_i32("--5"), None);
    assert_eq!(parse_i32("+-5"), None);
    assert_eq!(parse_i32("4.2"), None);
    assert_eq!(parse_i32("2147483648"), None);
    assert_eq!(parse_i32("-2147483649"), None);
    assert_eq!(parse_i32("99999999999999999999999"), None);
    assert_eq!(parse_i32("٤٢"), None);
    assert_eq!(parse_i32("abc"), None);
}

#[test]
fn parse_i32_agrees_with_the_standard_library() {
    let samples = [
        "", "+", "-", "0", "-0", "+0", "007", "12", "-12", "+12", "2147483647", "2147483648",
        "-2147483648", "-2147483649", "1e3", "0x10", " 1", "1 ", "é", "12345678901",
    ];
    for sample in samples {
        assert_eq!(parse_i32(sample), sample.parse::<i32>().ok());
    }
}

#[test]
fn parse_i32_reads_back_what_was_written() {
    for n in [i32::MIN, -1000, -1, 0, 1, 9, 10, 99, 100, 65536, i32::MAX] {
        assert_eq!(parse_i32(&n.to_text()), Some(n));
        assert_eq!(n.to_text(), format!("{}", n));
    }
}

#[test]
fn text_of_small_integers_and_references() {
    assert_eq!((-128i8).to_text(), "-128");
    assert_eq!(i16::MIN.to_text(), "-32768");
    assert_eq!(255u8.to_text(), "255");
    assert_eq!(u16::MAX.to_text(), "65535");
    assert_eq!(17usize.to_text(), "17");
    assert_eq!((-17isize).to_text(), "-17");
    let owned = String::from("2021-09-20T00:00:00Z");
    assert_eq!((&owned).to_text(), "2021-09-20T00:00:00Z");
    assert_eq!((&5i32).to_text(), "5");
}
