use deanery::text::{
    first_field, i64_to_string, nth_field, parse_i32, parse_i32_or_default, parse_i64, split_once, str_eq,
    u64_to_string,
};

#[test]
fn numerals_are_written_in_decimal() {
    assert_eq!(i64_to_string(0), "0");
    assert_eq!(i64_to_string(7), "7");
    assert_eq!(i64_to_string(2021), "2021");
    assert_eq!(i64_to_string(-42), "-42");
    assert_eq!(i64_to_string(i64::MIN), i64::MIN.to_string());
    assert_eq!(i64_to_string(i64::MAX), i64::MAX.to_string());
    assert_eq!(u64_to_string(u64::MAX), "18446744073709551615");
    assert_eq!(u64_to_string(10), "10");
}

#[test]
fn i32_parsing_follows_str_parse() {
    assert_eq!(parse_i32("42"), Some(42));
    assert_eq!(parse_i32("+7"), Some(7));
    assert_eq!(parse_i32("-0"), Some(0));
    assert_eq!(parse_i32("007"), Some(7));
    assert_eq!(parse_i32("2147483647"), Some(i32::MAX));
    assert_eq!(parse_i32("-2147483648"), Some(i32::MIN));
    assert_eq!(parse_i32("2147483648"), None);
    assert_eq!(parse_i32("-2147483649"), None);
    assert_eq!(parse_i32("99999999999999999999999"), None);
    assert_eq!(parse_i32(""), None);
    assert_eq!(parse_i32("-"), None);
    assert_eq!(parse_i32("+"), None);
    assert_eq!(parse_i32(" 1"), None);
    assert_eq!(parse_i32("1a"), None);
    assert_eq!(parse_i32("+-1"), None);
    assert_eq!(parse_i32("٣"), None);
}

#[test]
fn i32_parsing_agrees_with_std_on_samples() {
    for s in ["0", "12", "-12", "+12", "", "x", "2147483647", "2147483648", "-2147483648", "1 ", "--1", "00", "-00"] {
        assert_eq!(parse_i32(s), s.parse::<i32>().ok(), "input {s:?}");
    }
}

#[test]
fn i64_parsing_follows_str_parse() {
    assert_eq!(parse_i64("9223372036854775807"), Some(i64::MAX));
    assert_eq!(parse_i64("-9223372036854775808"), Some(i64::MIN));
    assert_eq!(parse_i64("9223372036854775808"), None);
    assert_eq!(parse_i64("-9223372036854775809"), None);
    assert_eq!(parse_i64("123"), Some(123));
    assert_eq!(parse_i64("12.5"), None);
}

#[test]
fn unparsable_i32_defaults_to_zero() {
    assert_eq!(parse_i32_or_default("15"), 15);
    assert_eq!(parse_i32_or_default("abc"), 0);
    assert_eq!(parse_i32_or_default(""), 0);
}

#[test]
fn numeral_parses_back_to_its_value() {
    for v in [0i64, 1, -1, 9, 10, -10, 2021, i32::MAX as i64, i32::MIN as i64] {
        assert_eq!(parse_i64(&i64_to_string(v)), Some(v));
    }
}

#[test]
fn split_once_splits_at_first_separator() {
    assert_eq!(split_once("a-b-c", "-"), Some(("a", "b-c")));
    assert_eq!(split_once("abc", "-"), None);
    assert_eq!(split_once("-x", "-"), Some(("", "x")));
    assert_eq!(split_once("1; Информатика; Базы", "; "), Some(("1", "Информатика; Базы")));
    assert_eq!(first_field("a;b", "; "), "a;b");
}

#[test]
fn nth_field_is_split_nth() {
    let s = "5; ПИ; Математика; Экзамен; 72; 1";
    for n in 0..8 {
        assert_eq!(nth_field(s, "; ", n), s.split("; ").nth(n), "field {n}");
    }
    assert_eq!(nth_field("", "-", 0), Some(""));
    assert_eq!(nth_field("", "-", 1), None);
}

#[test]
fn string_equality() {
    assert!(str_eq("Зачет", "Зачет"));
    assert!(!str_eq("Зачет", "Зачёт"));
    assert!(!str_eq("Зачет", "Зачет "));
    assert!(str_eq("", ""));
}
