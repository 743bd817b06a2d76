use gitsync::text::{
    join2, contains_text, decimal, decimal_i32, same_text, starts_with, to_lowercase, trim_end_matching, trim, parse_i32,
};

#[test]
fn decimal_text() {
    assert_eq!(decimal(0), "0");
    assert_eq!(decimal(7), "7");
    assert_eq!(decimal(100), "100");
    assert_eq!(decimal(u64::MAX), u64::MAX.to_string());
    assert_eq!(decimal_i32(-42), "-42");
    assert_eq!(decimal_i32(i32::MIN), i32::MIN.to_string());
    assert_eq!(decimal_i32(1234), "1234");
}

#[test]
fn text_predicates() {
    assert!(same_text("abc", "abc"));
    assert!(!same_text("abc", "abd"));
    assert!(starts_with("https://x", "https://"));
    assert!(!starts_with("http", "https://"));
    assert!(contains_text("kill: (12) - No such process", "No such process"));
    assert!(!contains_text("permission denied", "No such process"));
    assert!(contains_text("abc", ""));
}

#[test]
fn trimming_and_case() {
    assert_eq!(trim_end_matching("gitlab.com///", '/'), "gitlab.com");
    assert_eq!(trim_end_matching("///", '/'), "");
    assert_eq!(to_lowercase("GitLab"), "gitlab");
    assert_eq!(join2("a", "b"), "ab");
}

#[test]
fn trimming_unicode_whitespace() {
    for t in [" a b ", "\t\n x\r\n", "\u{3000}\u{a0}y\u{2028}", "", "   ", "\u{85}z\u{200a}", "\u{200b}w"] {
        assert_eq!(trim(t), t.trim());
    }
    assert_eq!(trim("\u{3000} 42 \u{a0}"), "42");
    assert_eq!(trim("\u{200b}w"), "\u{200b}w");
}

#[test]
fn parsing_signed_numbers() {
    assert_eq!(parse_i32("42"), Ok(42));
    assert_eq!(parse_i32("+7"), Ok(7));
    assert_eq!(parse_i32("-2147483648"), Ok(i32::MIN));
    assert_eq!(parse_i32("007"), Ok(7));
    assert!(parse_i32("2147483648").is_err());
    assert!(parse_i32("").is_err());
    assert!(parse_i32("+").is_err());
    assert!(parse_i32(" 1").is_err());
    assert!(parse_i32("1_000").is_err());
}
