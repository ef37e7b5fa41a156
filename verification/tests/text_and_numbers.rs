use linux_clipboard::decimal::{decimal_chars, parse_i32, parse_u32};
use linux_clipboard::text::{
    chars_of, char_is_white_space, contains, contains_char, same_chars, split_lines,
    split_white_space, starts_with, string_of, trim,
};

fn v(s: &str) -> Vec<char> {
    s.chars().collect()
}

fn s(v: &[char]) -> String {
    v.iter().collect()
}

#[test]
fn chars_and_strings_round_trip() {
    let c = chars_of("héllo ✓");
    assert_eq!(c, v("héllo ✓"));
    assert_eq!(string_of(&c), "héllo ✓");
}

#[test]
fn white_space_follows_unicode() {
    for c in [' ', '\t', '\n', '\r', '\u{0b}', '\u{0c}', '\u{85}', '\u{a0}', '\u{2003}', '\u{3000}'] {
        assert!(char_is_white_space(c));
        assert!(c.is_whitespace());
    }
    for c in ['a', '0', '\u{200b}', '_', '\u{fffd}'] {
        assert!(!char_is_white_space(c));
        assert_eq!(char_is_white_space(c), c.is_whitespace());
    }
}

#[test]
fn trim_removes_both_ends_only() {
    assert_eq!(s(&trim(&v("  a b \n"))), "a b");
    assert_eq!(s(&trim(&v("\u{3000}x\u{a0}"))), "x");
    assert_eq!(s(&trim(&v(" \t\n "))), "");
    assert_eq!(s(&trim(&v(""))), "");
    assert_eq!(s(&trim(&v("ab"))), "ab");
}

#[test]
fn words_split_on_any_white_space() {
    let words = split_white_space(&v("  x:1  y:2\tscreen:0\n"));
    let words: Vec<String> = words.iter().map(|w| s(w)).collect();
    assert_eq!(words, vec!["x:1", "y:2", "screen:0"]);
    assert!(split_white_space(&v("   ")).is_empty());
}

#[test]
fn substring_search() {
    assert!(contains(&v("uint32 1"), &v("32 1")));
    assert!(contains(&v("abc"), &v("")));
    assert!(!contains(&v("ab"), &v("abc")));
    assert!(!contains(&v("abc"), &v("ac")));
    assert!(starts_with(&v("x:12"), &v("x:")));
    assert!(!starts_with(&v("y:12"), &v("x:")));
    assert!(contains_char(&v("a\0b"), '\0'));
    assert!(!contains_char(&v("ab"), '\0'));
    assert!(same_chars(&v("toggle"), &v("toggle")));
    assert!(!same_chars(&v("toggle"), &v("toggl")));
}

#[test]
fn lines_match_str_lines() {
    for text in ["a\r\nb\n\nc", "a\n", "\n", "", "a\rb", "x\r\n", "a\n\n"] {
        let mine: Vec<String> = split_lines(&v(text)).iter().map(|l| s(l)).collect();
        let std_lines: Vec<String> = text.lines().map(|l| l.to_string()).collect();
        assert_eq!(mine, std_lines, "for {:?}", text);
    }
}

#[test]
fn parse_i32_like_std() {
    for text in [
        "0", "123", "-17", "+5", "-2147483648", "2147483647", "2147483648", "-2147483649", "", "-",
        "+", "1a", " 1", "1 ", "--1", "+-1", "٣", "00012",
    ] {
        assert_eq!(parse_i32(&v(text)), text.parse::<i32>().ok(), "for {:?}", text);
    }
}

#[test]
fn parse_u32_like_std() {
    for text in ["0", "4294967295", "4294967296", "-0", "+7", "", "+", "12x", "99999999999"] {
        assert_eq!(parse_u32(&v(text)), text.parse::<u32>().ok(), "for {:?}", text);
    }
}

#[test]
fn decimal_numerals() {
    assert_eq!(s(&decimal_chars(0)), "0");
    assert_eq!(s(&decimal_chars(7)), "7");
    assert_eq!(s(&decimal_chars(1234567)), "1234567");
    assert_eq!(s(&decimal_chars(u64::MAX)), u64::MAX.to_string());
}

#[test]
fn decimal_round_trip() {
    for n in [0u32, 1, 9, 10, 65535, 4000000000, u32::MAX] {
        assert_eq!(parse_u32(&decimal_chars(n as u64)), Some(n));
    }
}
