use benchmark::text::{
    chars_of, contains, decimal_text, join, signed_decimal_text, split_lines, split_whitespace,
    starts_with, string_of, trimmed, white_space,
};

fn shown(parts: Vec<Vec<char>>) -> Vec<String> {
    parts.into_iter().map(|p| p.into_iter().collect()).collect()
}

#[test]
fn white_space_is_that_of_unicode() {
    for n in 0..=0x10ffffu32 {
        if let Some(c) = char::from_u32(n) {
            assert_eq!(white_space(c), c.is_whitespace(), "{:x}", n);
        }
    }
}

#[test]
fn numbers_are_written_in_decimal() {
    assert_eq!(decimal_text(0), "0");
    assert_eq!(decimal_text(10), "10");
    assert_eq!(decimal_text(u64::MAX), "18446744073709551615");
    assert_eq!(signed_decimal_text(0), "0");
    assert_eq!(signed_decimal_text(-7), "-7");
    assert_eq!(signed_decimal_text(i32::MIN), "-2147483648");
    assert_eq!(signed_decimal_text(i32::MAX), "2147483647");
}

#[test]
fn white_space_is_trimmed_at_both_ends() {
    assert_eq!(trimmed(""), "");
    assert_eq!(trimmed(" \t\r\n"), "");
    assert_eq!(trimmed("  a b\u{3000}"), "a b");
    assert_eq!(trimmed("a"), "a");
}

#[test]
fn words_are_split_at_white_space() {
    for s in ["", "   ", "a", " a  b\tc ", "a\u{a0}b", "x\ny"] {
        let expected: Vec<String> = s.split_whitespace().map(|w| w.to_string()).collect();
        assert_eq!(shown(split_whitespace(&chars_of(s))), expected);
    }
}

#[test]
fn lines_end_at_line_feeds() {
    for s in ["", "\n", "a", "a\n", "a\nb", "a\r\nb\r", "a\r\r\n", "\n\nx\n\n", "\r\n"] {
        let expected: Vec<String> = s.lines().map(|l| l.to_string()).collect();
        assert_eq!(shown(split_lines(&chars_of(s))), expected, "{:?}", s);
    }
}

#[test]
fn parts_are_found() {
    let hay = chars_of("redis-server");
    assert!(contains(&hay, &chars_of("redis")));
    assert!(contains(&hay, &chars_of("server")));
    assert!(contains(&hay, &chars_of("")));
    assert!(!contains(&hay, &chars_of("redis-servers")));
    assert!(!contains(&hay, &chars_of("Redis")));
    assert!(starts_with(&hay, &chars_of("redis")));
    assert!(!starts_with(&hay, &chars_of("edis")));
    assert!(starts_with(&hay, &chars_of("")));
}

#[test]
fn strings_are_cut_and_joined() {
    let v = chars_of("abcdef");
    assert_eq!(string_of(&v, 1, 4), "bcd");
    assert_eq!(string_of(&v, 3, 3), "");
    assert_eq!(join(&vec![], " "), "");
    assert_eq!(join(&vec!["a".to_string()], " "), "a");
    assert_eq!(join(&vec!["a".to_string(), "".to_string(), "b".to_string()], ", "), "a, , b");
}
