use rust_clipboard_uploader::digits::{decimal_text, hex16_text, parse_usize};
use rust_clipboard_uploader::text::{
    joined, same_ignoring_case, same_text, split, strip_prefix, trim, without,
};

#[test]
fn numbers_are_read() {
    assert_eq!(parse_usize("0"), Some(0));
    assert_eq!(parse_usize("007"), Some(7));
    assert_eq!(parse_usize("+12"), Some(12));
    assert_eq!(parse_usize(""), None);
    assert_eq!(parse_usize("+"), None);
    assert_eq!(parse_usize("-1"), None);
    assert_eq!(parse_usize("1 "), None);
    assert_eq!(parse_usize("٣"), None);
    assert_eq!(parse_usize(&usize::MAX.to_string()), Some(usize::MAX));
    assert_eq!(parse_usize("340282366920938463463374607431768211456"), None);
}

#[test]
fn numbers_are_written() {
    assert_eq!(decimal_text(0), "0");
    assert_eq!(decimal_text(u64::MAX), u64::MAX.to_string());
    assert_eq!(hex16_text(255), "00000000000000ff");
    for n in [0usize, 9, 10, 12345, usize::MAX] {
        assert_eq!(parse_usize(&decimal_text(n as u64)), Some(n));
    }
}

#[test]
fn white_space_is_trimmed() {
    assert_eq!(trim(" \t\r\n\u{b}\u{c}a b\u{85}\u{2003}\u{205f}"), "a b");
    assert_eq!(trim("\u{200b}x"), "\u{200b}x");
    assert_eq!(trim("   "), "");
    for c in (0u32..0x11_0000).filter_map(char::from_u32) {
        let s = c.to_string();
        assert_eq!(trim(&s).is_empty(), s.trim().is_empty());
    }
}

#[test]
fn texts_are_split_and_joined() {
    assert_eq!(split("", '.'), vec![""]);
    assert_eq!(split("a..b.", '.'), vec!["a", "", "b", ""]);
    assert_eq!(split("é", '+'), vec!["é"]);
    assert_eq!(joined("ab", "c"), "abc");
    assert_eq!(without("[[0]x]", '['), "0]x]");
    assert_eq!(strip_prefix("json.url", "json."), Some("url".to_string()));
    assert_eq!(strip_prefix("json", "json."), None);
    assert_eq!(strip_prefix("x", ""), Some("x".to_string()));
}

#[test]
fn texts_are_compared() {
    assert!(same_text("é", "é"));
    assert!(!same_text("a", "ab"));
    assert!(same_ignoring_case("PuT", "pUt"));
    assert!(!same_ignoring_case("É", "é"));
    assert!(!same_ignoring_case("PUT", "PUTS"));
}
