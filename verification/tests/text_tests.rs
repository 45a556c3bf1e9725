use myprio::app::FilterOptions;
use myprio::error::Error;
use myprio::text::{contains_str, first_line, pad_trunc, u64_to_string};

#[test]
fn substring_search() {
    assert!(contains_str("water plants", "plant"));
    assert!(contains_str("water plants", "water plants"));
    assert!(contains_str("water plants", ""));
    assert!(contains_str("water plants", "s"));
    assert!(!contains_str("water plants", "plantZ"));
    assert!(!contains_str("", "a"));
    assert!(!contains_str("short", "much longer needle"));
}

#[test]
fn pad_and_truncate() {
    assert_eq!(pad_trunc("abc", 5), "abc  ");
    assert_eq!(pad_trunc("abcdef", 4), "abcd");
    assert_eq!(pad_trunc("abc", 3), "abc");
    assert_eq!(pad_trunc("", 3), "   ");
}

#[test]
fn first_line_of_text() {
    assert_eq!(first_line("one line"), "one line");
    assert_eq!(first_line("first\nsecond\nthird"), "first");
    assert_eq!(first_line("\nstarts with a break"), "");
    assert_eq!(first_line(""), "");
}

#[test]
fn decimal_writing() {
    assert_eq!(u64_to_string(0), "0");
    assert_eq!(u64_to_string(7), "7");
    assert_eq!(u64_to_string(42), "42");
    assert_eq!(u64_to_string(1000), "1000");
    assert_eq!(u64_to_string(u64::MAX), "18446744073709551615");
}

#[test]
fn filter_option_strings() {
    assert_eq!(FilterOptions::ByName.to_string(), "By Name");
    assert_eq!(FilterOptions::ByStatus.to_string(), "By Status");
    assert_eq!(FilterOptions::ByGroup.to_string(), "By Group");
    assert_eq!(FilterOptions::ByPriority.to_string(), "By Priority");
    for f in FilterOptions::all() {
        assert_eq!(FilterOptions::from_str(&f.to_string()).unwrap(), f);
    }
    assert!(FilterOptions::from_str("By Size").is_err());
}

#[test]
fn enum_parse_error_becomes_parsing_error() {
    let e = FilterOptions::from_str("nonsense").unwrap_err();
    assert!(matches!(Error::from(e), Error::ParsingError));
}
