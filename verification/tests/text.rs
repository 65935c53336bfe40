use task_with_me::text::{blank, chars_of, contains_text, decimal_string, parse_decimal, trim};

#[test]
fn trim_strips_both_ends() {
    assert_eq!(trim("  hello world \n"), "hello world");
    assert_eq!(trim("\t\u{3000}x\u{a0}"), "x");
    assert_eq!(trim("   "), "");
    assert_eq!(trim(""), "");
    assert_eq!(trim("a b"), "a b");
}

#[test]
fn trim_agrees_with_std() {
    for s in ["", " ", "x", " x", "x ", "\u{85}a\u{2003}b\u{2028}", "\u{200b}x", " é "] {
        assert_eq!(trim(s), s.trim());
        assert_eq!(blank(s), s.trim().is_empty());
    }
}

#[test]
fn parse_decimal_accepts_digits_only() {
    assert_eq!(parse_decimal("60"), Some(60));
    assert_eq!(parse_decimal("+60"), Some(60));
    assert_eq!(parse_decimal("007"), Some(7));
    assert_eq!(parse_decimal("0"), Some(0));
    assert_eq!(parse_decimal(""), None);
    assert_eq!(parse_decimal("+"), None);
    assert_eq!(parse_decimal("-1"), None);
    assert_eq!(parse_decimal(" 1"), None);
    assert_eq!(parse_decimal("1 "), None);
    assert_eq!(parse_decimal("++1"), None);
    assert_eq!(parse_decimal("1e3"), None);
    assert_eq!(parse_decimal("١٢"), None);
}

#[test]
fn parse_decimal_stops_at_the_largest_value() {
    assert_eq!(parse_decimal("18446744073709551615"), Some(u64::MAX));
    assert_eq!(parse_decimal("18446744073709551616"), None);
    assert_eq!(parse_decimal("99999999999999999999"), None);
    assert_eq!(parse_decimal("000000000000000000000000001"), Some(1));
}

#[test]
fn parse_decimal_agrees_with_std() {
    for s in ["", "+", "0", "12", "+12", "-0", "1_000", "18446744073709551615", "18446744073709551616"] {
        assert_eq!(parse_decimal(s), s.parse::<u64>().ok());
    }
}

#[test]
fn decimal_string_writes_digits() {
    assert_eq!(decimal_string(0), "0");
    assert_eq!(decimal_string(7), "7");
    assert_eq!(decimal_string(10), "10");
    assert_eq!(decimal_string(1234567890), "1234567890");
    assert_eq!(decimal_string(u64::MAX), "18446744073709551615");
}

#[test]
fn chars_of_lists_the_characters() {
    assert_eq!(chars_of(""), Vec::<char>::new());
    assert_eq!(chars_of("aé\u{1F600}b"), vec!['a', 'é', '\u{1F600}', 'b']);
}

#[test]
fn contains_text_finds_a_text_anywhere() {
    assert!(contains_text("health ping", "ping"));
    assert!(contains_text("health ping", "health"));
    assert!(contains_text("health ping", "th p"));
    assert!(contains_text("health ping", "health ping"));
    assert!(!contains_text("health ping", "pong"));
    assert!(!contains_text("health ping", "health ping "));
    assert!(!contains_text("ping", "PING"));
    assert!(!contains_text("aab", "abb"));
    assert!(contains_text("aaab", "aab"));
}

#[test]
fn the_empty_text_stands_everywhere() {
    assert!(contains_text("abc", ""));
    assert!(contains_text("", ""));
    assert!(!contains_text("", "a"));
}

#[test]
fn contains_text_agrees_with_std() {
    let hays = ["", "a", "abcabd", "ééa", "naïve café", "aaaa"];
    let needles = ["", "a", "abd", "é", "éa", "ï", "aa", "aaaaa", "cab"];
    for hay in hays {
        for needle in needles {
            assert_eq!(contains_text(hay, needle), hay.contains(needle));
        }
    }
}
