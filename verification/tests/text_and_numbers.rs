use backend::number::parse_i64;
use backend::text::{chars_of, is_blank, is_whitespace, trim};

#[test]
fn trim_removes_surrounding_whitespace() {
    assert_eq!(trim("  hello  "), "hello");
    assert_eq!(trim("\t\n x y \u{3000}\u{2028}"), "x y");
    assert_eq!(trim(""), "");
    assert_eq!(trim("   "), "");
    assert_eq!(trim("a"), "a");
}

#[test]
fn trim_agrees_with_std() {
    for s in ["  hello  ", "\u{85}x\u{a0}", "\u{200b}x", " a b ", "\r\n", "z\u{205f}"] {
        assert_eq!(trim(s), s.trim());
    }
}

#[test]
fn blank_prompts_are_detected() {
    assert!(is_blank(""));
    assert!(is_blank("   \t\n  "));
    assert!(is_blank("\u{2000}\u{3000}"));
    assert!(!is_blank("  hello  "));
    assert!(!is_blank("\u{200b}"));
}

#[test]
fn whitespace_matches_std_on_all_small_chars() {
    for u in 0u32..0x3100 {
        if let Some(c) = char::from_u32(u) {
            assert_eq!(is_whitespace(c), c.is_whitespace(), "{u:#x}");
        }
    }
}

#[test]
fn chars_are_listed_in_order() {
    assert_eq!(chars_of("añb"), vec!['a', 'ñ', 'b']);
    assert!(chars_of("").is_empty());
}

#[test]
fn parse_i64_accepts_numerals() {
    assert_eq!(parse_i64("123"), Some(123));
    assert_eq!(parse_i64("-42"), Some(-42));
    assert_eq!(parse_i64("+7"), Some(7));
    assert_eq!(parse_i64("007"), Some(7));
    assert_eq!(parse_i64("1700000000000"), Some(1_700_000_000_000));
    assert_eq!(parse_i64("9223372036854775807"), Some(i64::MAX));
    assert_eq!(parse_i64("-9223372036854775808"), Some(i64::MIN));
}

#[test]
fn parse_i64_refuses_what_std_refuses() {
    for s in ["", "-", "+", "12a", " 1", "1 ", "--1", "+-1", "9223372036854775808", "-9223372036854775809", "99999999999999999999999", "1.5", "٣"] {
        assert_eq!(parse_i64(s), None, "{s:?}");
        assert!(s.parse::<i64>().is_err());
    }
}

#[test]
fn parse_i64_agrees_with_std() {
    for s in ["0", "-0", "+0", "42", "-9223372036854775807", "18446744073709551616", "12345678901234567890"] {
        assert_eq!(parse_i64(s), s.parse::<i64>().ok(), "{s:?}");
    }
}
