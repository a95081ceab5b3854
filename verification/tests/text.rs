use chanvoy::text::{
    contains, debug_strings, ends_with, eq_ignore_ascii_case, i64_text, is_white_space,
    join, pad, parse_u64, replace_all, split_char, split_once, starts_with, strip_prefix,
    strip_suffix, text_lt, to_ascii_lower, trim, trim_end_char, trim_start_char, u64_text,
    NumberFault,
};

#[test]
fn white_space_is_that_of_unicode() {
    for code in 0..=0x0010_ffff_u32 {
        if let Some(c) = char::from_u32(code) {
            assert_eq!(is_white_space(c), c.is_whitespace(), "{code:x}");
        }
    }
}

#[test]
fn trimming() {
    for s in ["", " ", " a b ", "\u{3000}x\u{85}", "x", "\ta\n"] {
        assert_eq!(trim(s), s.trim());
    }
    assert_eq!(trim_start_char("##a#", '#'), "a#");
    assert_eq!(trim_end_char("a//", '/'), "a");
}

#[test]
fn numbers_are_read_as_the_standard_library_does() {
    for s in [
        "0", "+7", "-7", "", "+", "-", "18446744073709551615", "18446744073709551616", "1x", "x1",
        "99999999999999999999x", "00012", " 1", "\u{661}",
    ] {
        match (parse_u64(s), s.parse::<u64>()) {
            (Ok(a), Ok(b)) => assert_eq!(a, b),
            (Err(fault), Err(e)) => {
                let said = match fault {
                    NumberFault::Empty => "cannot parse integer from empty string",
                    NumberFault::InvalidDigit => "invalid digit found in string",
                    NumberFault::TooLarge => "number too large to fit in target type",
                };
                assert_eq!(said, e.to_string(), "{s:?}");
            }
            (a, b) => panic!("{s:?}: {a:?} against {b:?}"),
        }
    }
}

#[test]
fn numbers_are_written_in_decimal() {
    for n in [0, 1, 9, 10, 12345, u64::MAX] {
        assert_eq!(u64_text(n), n.to_string());
    }
    for n in [0, -1, i64::MIN, i64::MAX] {
        assert_eq!(i64_text(n), n.to_string());
    }
}

#[test]
fn debug_forms_are_those_of_the_standard_library() {
    let list: Vec<String> = ["", "a\"b", "\n\\", "\u{e9}\u{200b}", "\u{7f}"]
        .iter()
        .map(|s| s.to_string())
        .collect();
    assert_eq!(debug_strings(&list), format!("{list:?}"));
    assert_eq!(debug_strings(&Vec::new()), "[]");
}

#[test]
fn searching_and_splitting() {
    assert!(contains("hello", "ell"));
    assert!(contains("hello", ""));
    assert!(!contains("hello", "elo"));
    assert!(starts_with("hello", "he"));
    assert!(ends_with("hello", "lo"));
    assert_eq!(strip_prefix("hello", "he"), Some("llo"));
    assert_eq!(strip_suffix("hello", "lo"), Some("hel"));
    assert_eq!(strip_prefix("hello", "x"), None);
    assert_eq!(split_once("a=b=c", "="), Some(("a", "b=c")));
    assert_eq!(split_once("abc", "="), None);
    assert_eq!(
        split_char("a,b,,c", ','),
        vec!["a".to_string(), "b".to_string(), String::new(), "c".to_string()]
    );
    assert_eq!(replace_all("aaa", "aa", "b"), "ba");
    assert_eq!(join(&vec!["a".to_string(), "b".to_string()], ", "), "a, b");
}

#[test]
fn cases_and_order() {
    assert_eq!(to_ascii_lower("A\u{c9}b"), "a\u{c9}b");
    assert!(eq_ignore_ascii_case("AbC", "aBc"));
    assert!(!eq_ignore_ascii_case("\u{c9}", "\u{e9}"));
    for a in ["", "a", "ab", "b", "\u{e9}", "\u{ffff}", "\u{10000}"] {
        for b in ["", "a", "ab", "b", "\u{e9}", "\u{ffff}", "\u{10000}"] {
            assert_eq!(text_lt(a, b), a < b, "{a:?} {b:?}");
        }
    }
}

#[test]
fn padding_counts_characters() {
    assert_eq!(pad("\u{e9}", 3), format!("{:<3}", "\u{e9}"));
    assert_eq!(pad("abcd", 3), "abcd");
}
