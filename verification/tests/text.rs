use dhl_wrapper::number::Decimal;
use dhl_wrapper::text::{
    bool_str, chars_of, i64_to_decimal, letter_str, parse_bool, parse_i64, parse_u64, str_eq,
    u64_to_decimal,
};

#[test]
fn unsigned_numerals() {
    assert_eq!(u64_to_decimal(0), "0");
    assert_eq!(u64_to_decimal(7), "7");
    assert_eq!(u64_to_decimal(10), "10");
    assert_eq!(u64_to_decimal(3000), "3000");
    assert_eq!(u64_to_decimal(4294967295), "4294967295");
    assert_eq!(u64_to_decimal(u64::MAX), "18446744073709551615");
}

#[test]
fn signed_numerals() {
    assert_eq!(i64_to_decimal(0), "0");
    assert_eq!(i64_to_decimal(42), "42");
    assert_eq!(i64_to_decimal(-1), "-1");
    assert_eq!(i64_to_decimal(-3000), "-3000");
    assert_eq!(i64_to_decimal(i64::MAX), "9223372036854775807");
    assert_eq!(i64_to_decimal(i64::MIN), "-9223372036854775808");
}

#[test]
fn unsigned_numerals_are_read_back() {
    for n in [0u64, 1, 9, 10, 99, 100, 3000, 4294967295, 4294967296, u64::MAX] {
        assert_eq!(parse_u64(&u64_to_decimal(n)), Some(n));
    }
}

#[test]
fn signed_numerals_are_read_back() {
    for n in [0i64, 1, -1, 10, -10, 3000, -3000, i64::MAX, i64::MIN, i64::MIN + 1] {
        assert_eq!(parse_i64(&i64_to_decimal(n)), Some(n));
    }
}

#[test]
fn parse_u64_takes_numerals_only() {
    assert_eq!(parse_u64(""), None);
    assert_eq!(parse_u64("00"), None);
    assert_eq!(parse_u64("007"), None);
    assert_eq!(parse_u64("+7"), None);
    assert_eq!(parse_u64("-7"), None);
    assert_eq!(parse_u64("7 "), None);
    assert_eq!(parse_u64("7.0"), None);
    assert_eq!(parse_u64("1e3"), None);
    assert_eq!(parse_u64("٣"), None);
    assert_eq!(parse_u64("18446744073709551616"), None);
    assert_eq!(parse_u64("99999999999999999999999"), None);
    assert_eq!(parse_u64("18446744073709551615"), Some(u64::MAX));
    assert_eq!(parse_u64("0"), Some(0));
}

#[test]
fn parse_i64_takes_numerals_only() {
    assert_eq!(parse_i64(""), None);
    assert_eq!(parse_i64("-"), None);
    assert_eq!(parse_i64("-0"), None);
    assert_eq!(parse_i64("--1"), None);
    assert_eq!(parse_i64("-01"), None);
    assert_eq!(parse_i64("+1"), None);
    assert_eq!(parse_i64("9223372036854775808"), None);
    assert_eq!(parse_i64("-9223372036854775809"), None);
    assert_eq!(parse_i64("-9223372036854775808"), Some(i64::MIN));
    assert_eq!(parse_i64("9223372036854775807"), Some(i64::MAX));
    assert_eq!(parse_i64("0"), Some(0));
}

#[test]
fn boolean_literals() {
    assert_eq!(bool_str(true), "true");
    assert_eq!(bool_str(false), "false");
    assert_eq!(parse_bool("true"), Some(true));
    assert_eq!(parse_bool("false"), Some(false));
    assert_eq!(parse_bool("True"), None);
    assert_eq!(parse_bool("1"), None);
    assert_eq!(parse_bool(""), None);
    assert_eq!(parse_bool("true "), None);
}

#[test]
fn strings_are_compared_by_their_characters() {
    assert!(str_eq("", ""));
    assert!(str_eq("Monday", "Monday"));
    assert!(str_eq("Kohlhöfen", "Kohlhöfen"));
    assert!(!str_eq("Monday", "monday"));
    assert!(!str_eq("Monday", "Monda"));
    assert!(!str_eq("Monday", "Mondays"));
    assert!(!str_eq("", "a"));
}

#[test]
fn characters_of_a_string() {
    assert_eq!(chars_of(""), Vec::<char>::new());
    assert_eq!(chars_of("höf"), vec!['h', 'ö', 'f']);
}

#[test]
fn one_letter_strings() {
    assert_eq!(letter_str('A'), "A");
    assert_eq!(letter_str('Z'), "Z");
    assert_eq!(letter_str('a'), "a");
    assert_eq!(letter_str('q'), "q");
    assert_eq!(letter_str('z'), "z");
}

#[test]
fn decimal_takes_number_literals() {
    for text in [
        "0", "7", "10", "-1", "-0", "53.575264", "9.954053", "-0.5", "0.0", "100.0", "1e16",
        "1E16", "1e+16", "1e-6", "1.5e-7", "-2.25E+10", "0e0", "12345678901234567890.5",
    ] {
        let number = Decimal::parse(text);
        assert!(number.is_some(), "{}", text);
        assert_eq!(number.unwrap().literal(), text);
    }
}

#[test]
fn decimal_rejects_what_is_no_number_literal() {
    for text in [
        "", "-", "+1", "01", "-01", "1.", ".5", "1..5", "1.5.2", "1e", "1e+", "1e-", "e5", "1e5e5",
        "1e5.2", "1.e5", "0x10", "1,5", " 1", "1 ", "NaN", "Infinity", "1&x=2", "١",
    ] {
        assert!(Decimal::parse(text).is_none(), "{}", text);
    }
}

#[test]
fn decimal_clone_keeps_the_literal() {
    let number = Decimal::parse("53.575264").unwrap();
    assert_eq!(number.clone().literal(), "53.575264");
}
