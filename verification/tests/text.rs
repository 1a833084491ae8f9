use aria::text::{decimal_text, find_str, join_strings, parse_u64, signed_decimal_text, split_whitespace, trim};

#[test]
fn trims_unicode_whitespace() {
    assert_eq!(trim("  a b \n"), "a b");
    assert_eq!(trim("\u{3000}x\u{A0}"), "x");
    assert_eq!(trim("   "), "");
}

#[test]
fn splits_on_whitespace_runs() {
    assert_eq!(split_whitespace("  0  9 * "), vec!["0", "9", "*"]);
    assert!(split_whitespace("").is_empty());
}

#[test]
fn parses_unsigned_numbers() {
    assert_eq!(parse_u64("15"), Some(15));
    assert_eq!(parse_u64("+7"), Some(7));
    assert_eq!(parse_u64(""), None);
    assert_eq!(parse_u64("1x"), None);
    assert_eq!(parse_u64("18446744073709551616"), None);
}

#[test]
fn finds_first_occurrence() {
    assert_eq!(find_str("a```b```", "```"), Some(1));
    assert_eq!(find_str("abc", "x"), None);
}

#[test]
fn joins_with_separator() {
    assert_eq!(join_strings(&vec!["a".to_string(), "b".to_string(), "c".to_string()], ", "), "a, b, c");
    assert_eq!(join_strings(&vec![], ", "), "");
}

#[test]
fn decimal_texts() {
    assert_eq!(decimal_text(0), "0");
    assert_eq!(decimal_text(18446744073709551615), "18446744073709551615");
    assert_eq!(signed_decimal_text(-42), "-42");
    assert_eq!(signed_decimal_text(i64::MIN), "-9223372036854775808");
}
