use browser_core::text::chars_of;
use browser_core::text::contains_char;
use browser_core::text::contains_seq;
use browser_core::text::has_prefix;
use browser_core::text::has_suffix;
use browser_core::text::is_blank_str;
use browser_core::text::is_whitespace_char;
use browser_core::text::same_text;
use browser_core::text::trim;

#[test]
fn trim_matches_std() {
    for s in ["", "  ", " a ", "\u{3000}a b\t\n", "\u{85}x\u{a0}", "a", "\u{200b}a"] {
        assert_eq!(trim(s), s.trim(), "{s:?}");
    }
}

#[test]
fn whitespace_matches_std() {
    for u in 0u32..0x3100 {
        if let Some(c) = char::from_u32(u) {
            assert_eq!(is_whitespace_char(c), c.is_whitespace(), "{u:x}");
        }
    }
}

#[test]
fn blank_and_equality() {
    assert!(is_blank_str(" \t"));
    assert!(!is_blank_str(" x"));
    assert!(same_text("abc", "abc"));
    assert!(!same_text("abc", "abd"));
    assert!(!same_text("ab", "abc"));
}

#[test]
fn searches() {
    let s = chars_of("hello.world");
    assert!(has_prefix(&s, &chars_of("hello")));
    assert!(!has_prefix(&s, &chars_of("world")));
    assert!(has_suffix(&s, &chars_of("world")));
    assert!(contains_seq(&s, &chars_of("o.w")));
    assert!(!contains_seq(&s, &chars_of("ow")));
    assert!(contains_char(&s, '.'));
    assert!(!contains_char(&s, ' '));
}
