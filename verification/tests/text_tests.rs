use tccli::clock::current_unix_timestamp;
use tccli::text::{
    chars_of, decimal_string, is_blank_str, is_whitespace_char, split_once_str, starts_with_str,
    str_equals, trim_str, zero_padded_decimal,
};

#[test]
fn whitespace_follows_unicode_white_space() {
    for c in [' ', '\t', '\n', '\u{0b}', '\u{0c}', '\r', '\u{85}', '\u{a0}', '\u{1680}', '\u{2000}', '\u{200a}', '\u{2028}', '\u{2029}', '\u{202f}', '\u{205f}', '\u{3000}'] {
        assert!(is_whitespace_char(c), "{c:?}");
        assert_eq!(is_whitespace_char(c), c.is_whitespace());
    }
    for c in ['a', '0', '\u{200b}', '\u{feff}', '\u{180e}', '\u{2060}'] {
        assert!(!is_whitespace_char(c), "{c:?}");
        assert_eq!(is_whitespace_char(c), c.is_whitespace());
    }
}

#[test]
fn trim_matches_std() {
    for s in ["", "   ", " a ", "\u{3000}x y\t\n", "abc", "\u{85}é\u{a0}"] {
        assert_eq!(trim_str(s), s.trim());
    }
}

#[test]
fn blank_means_trims_to_empty() {
    for s in ["", " ", "\t\u{2028}", " a", "b "] {
        assert_eq!(is_blank_str(s), s.trim().is_empty());
    }
}

#[test]
fn split_once_at_first_separator() {
    assert_eq!(split_once_str("a:b:c", ':'), Some(("a", "b:c")));
    assert_eq!(split_once_str(":x", ':'), Some(("", "x")));
    assert_eq!(split_once_str("x:", ':'), Some(("x", "")));
    assert_eq!(split_once_str("nocolon", ':'), None);
    assert_eq!(split_once_str("é:ü", ':'), Some(("é", "ü")));
}

#[test]
fn decimal_rendering() {
    assert_eq!(decimal_string(0), "0");
    assert_eq!(decimal_string(7), "7");
    assert_eq!(decimal_string(10), "10");
    assert_eq!(decimal_string(1551113065), "1551113065");
    assert_eq!(decimal_string(u64::MAX), u64::MAX.to_string());
}

#[test]
fn distinct_numbers_render_distinctly() {
    let values = [0u64, 1, 9, 10, 11, 100, 1000, 1551113065, u64::MAX];
    for a in values {
        for b in values {
            assert_eq!(decimal_string(a) == decimal_string(b), a == b);
        }
    }
}

#[test]
fn zero_padding() {
    assert_eq!(zero_padded_decimal(7, 2), "07");
    assert_eq!(zero_padded_decimal(12, 2), "12");
    assert_eq!(zero_padded_decimal(123, 2), "123");
    assert_eq!(zero_padded_decimal(5, 4), "0005");
    assert_eq!(zero_padded_decimal(0, 0), "0");
}

#[test]
fn string_comparisons() {
    assert!(str_equals("middle", "middle"));
    assert!(!str_equals("middle", "Middle"));
    assert!(!str_equals("mid", "middle"));
    assert!(starts_with_str("https://a", "https://"));
    assert!(!starts_with_str("http:/", "http://"));
    assert!(starts_with_str("x", ""));
    assert_eq!(chars_of("aé"), vec!['a', 'é']);
}

#[test]
fn clock_reads_after_2020() {
    let now = current_unix_timestamp().unwrap();
    assert!(now > 1_577_836_800);
}

#[test]
fn trimming_twice_changes_nothing() {
    for s in ["", " \u{2028}a b\u{a0} ", "x", "\t\t"] {
        let once = trim_str(s);
        assert_eq!(trim_str(once), once);
    }
}
