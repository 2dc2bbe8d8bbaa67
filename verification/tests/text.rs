use rust_tmpl::text::{decimal_i64, is_blank, same_text, strip_prefix, trim_end_matching};

#[test]
fn decimal_matches_display() {
    for n in [0i64, 7, 10, -1, -10, 1234567890, i64::MAX, i64::MIN] {
        assert_eq!(decimal_i64(n), n.to_string());
    }
}

#[test]
fn blank_matches_trim() {
    for s in ["", " ", "\t\n\r\u{b}\u{c}", "\u{85}\u{a0}\u{1680}\u{2000}\u{200a}\u{2028}\u{2029}\u{202f}\u{205f}\u{3000}", " a ", "\u{200b}", "x"] {
        assert_eq!(is_blank(s), s.trim().is_empty(), "input {s:?}");
    }
    for c in (0u32..0x3100).filter_map(char::from_u32) {
        let s = c.to_string();
        assert_eq!(is_blank(&s), c.is_whitespace(), "char {c:?}");
    }
}

#[test]
fn prefix_and_trim_helpers() {
    assert_eq!(strip_prefix("Bearer abc", "Bearer "), Some("abc"));
    assert_eq!(strip_prefix("bearer abc", "Bearer "), None);
    assert_eq!(strip_prefix("Bear", "Bearer "), None);
    assert_eq!(trim_end_matching("a//", '/'), "a");
    assert_eq!(trim_end_matching("///", '/'), "");
    assert!(same_text("local", "local"));
    assert!(!same_text("local", "locals"));
}
