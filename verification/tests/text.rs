use connect_1password::text::{chars_of, contains, parse_u16, same_text, to_decimal};

#[test]
fn chars_come_in_order() {
    assert_eq!(chars_of("a+b"), vec!['a', '+', 'b']);
    assert_eq!(chars_of(""), Vec::<char>::new());
    assert_eq!(chars_of("é√"), vec!['é', '√']);
}

#[test]
fn same_text_compares_character_by_character() {
    assert!(same_text("GET", "GET"));
    assert!(same_text("", ""));
    assert!(!same_text("GET", "get"));
    assert!(!same_text("GET", "GETS"));
    assert!(!same_text("GETS", "GET"));
}

#[test]
fn decimal_of_small_numbers() {
    assert_eq!(to_decimal(0), "0");
    assert_eq!(to_decimal(7), "7");
    assert_eq!(to_decimal(10), "10");
    assert_eq!(to_decimal(404), "404");
    assert_eq!(to_decimal(65535), "65535");
}

#[test]
fn decimal_of_the_largest_number() {
    assert_eq!(to_decimal(u64::MAX), "18446744073709551615");
    assert_eq!(to_decimal(u64::MAX), u64::MAX.to_string());
}

#[test]
fn decimal_agrees_with_the_standard_library() {
    let mut n: u64 = 1;
    for _ in 0..19 {
        assert_eq!(to_decimal(n), n.to_string());
        assert_eq!(to_decimal(n - 1), (n - 1).to_string());
        n *= 10;
    }
}

#[test]
fn numeral_is_read() {
    assert_eq!(parse_u16("0"), Some(0));
    assert_eq!(parse_u16("404"), Some(404));
    assert_eq!(parse_u16("007"), Some(7));
    assert_eq!(parse_u16("65535"), Some(65535));
    assert_eq!(parse_u16("+5"), Some(5));
}

#[test]
fn numeral_out_of_range_is_refused() {
    assert_eq!(parse_u16("65536"), None);
    assert_eq!(parse_u16("99999"), None);
    assert_eq!(parse_u16("100000000000000000000000"), None);
}

#[test]
fn numeral_with_anything_but_digits_is_refused() {
    assert_eq!(parse_u16(""), None);
    assert_eq!(parse_u16("+"), None);
    assert_eq!(parse_u16("-1"), None);
    assert_eq!(parse_u16("12a"), None);
    assert_eq!(parse_u16(" 12"), None);
    assert_eq!(parse_u16("1_2"), None);
    assert_eq!(parse_u16("++1"), None);
    assert_eq!(parse_u16("1+"), None);
    assert_eq!(parse_u16("٣"), None);
}

#[test]
fn numeral_agrees_with_the_standard_library() {
    for text in ["0", "1", "65535", "65536", "+12", "", "+", "x", "12 ", "00012"] {
        assert_eq!(parse_u16(text), text.parse::<u16>().ok());
    }
}

#[test]
fn substring_is_found_anywhere() {
    assert!(contains("Invalid bearer token", "Invalid"));
    assert!(contains("Invalid bearer token", "bearer"));
    assert!(contains("Invalid bearer token", "token"));
    assert!(contains("Invalid bearer token", "Invalid bearer token"));
    assert!(contains("aab", "ab"));
}

#[test]
fn substring_that_is_absent_is_not_found() {
    assert!(!contains("Invalid bearer token", "Token"));
    assert!(!contains("abc", "abcd"));
    assert!(!contains("", "a"));
    assert!(!contains("abab", "aba b"));
}

#[test]
fn empty_text_is_a_substring_of_every_text() {
    assert!(contains("abc", ""));
    assert!(contains("", ""));
}
