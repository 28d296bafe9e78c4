use global_hotkey::hotkey::{Code, HotKey, Modifiers};
use rust_clipboard_uploader::config::Config;
use rust_clipboard_uploader::hotkey::{
    parse_hotkey, parse_shortcut, shortcut_from_parts, startup_hotkey, Key, Shortcut,
};

fn plain(key: Key) -> Shortcut {
    Shortcut { control: false, shift: false, alt: false, command: false, key }
}

#[test]
fn shortcuts_are_read() {
    let expected = Shortcut { control: true, shift: true, ..plain(Key::Letter('u')) };
    assert_eq!(parse_shortcut("ctrl+shift+u"), Some(expected));
    let expected = Shortcut { command: true, shift: true, ..plain(Key::Letter('u')) };
    assert_eq!(parse_shortcut("cmd+shift+u"), Some(expected));
    assert_eq!(parse_shortcut("f6"), Some(plain(Key::Function(6))));
    assert_eq!(parse_shortcut("option+Z"), Some(Shortcut { alt: true, ..plain(Key::Letter('z')) }));
}

#[test]
fn case_and_order_do_not_matter() {
    assert_eq!(parse_shortcut("CTRL+Shift+U"), parse_shortcut("ctrl+shift+u"));
    assert_eq!(parse_shortcut("shift+ctrl+shift+u"), parse_shortcut("control+shift+u"));
}

#[test]
fn unknown_words_are_passed_over_but_keys_are_not() {
    assert_eq!(parse_shortcut("hyper+a"), Some(plain(Key::Letter('a'))));
    assert_eq!(parse_shortcut("+a"), Some(plain(Key::Letter('a'))));
    assert_eq!(parse_shortcut(""), None);
    assert_eq!(parse_shortcut("a+"), None);
    assert_eq!(parse_shortcut("ctrl"), None);
    assert_eq!(parse_shortcut("f7"), None);
    assert_eq!(parse_shortcut("f0"), None);
    assert_eq!(parse_shortcut("1"), None);
    assert_eq!(parse_shortcut(" u"), None);
}

#[test]
fn lower_case_is_that_of_unicode() {
    // The Kelvin sign is `k` in lower case.
    assert_eq!(parse_shortcut("\u{212a}"), Some(plain(Key::Letter('k'))));
}

#[test]
fn parts_in_lower_case_are_read() {
    let parts: Vec<String> = vec!["meta".to_string(), "alt".to_string(), "f1".to_string()];
    let expected = Shortcut { command: true, alt: true, ..plain(Key::Function(1)) };
    assert_eq!(shortcut_from_parts(&parts), Some(expected));
    assert_eq!(shortcut_from_parts(&vec![]), None);
}

#[test]
fn the_system_gets_the_same_shortcut() {
    assert_eq!(
        parse_hotkey("Ctrl+Shift+u"),
        Some(HotKey::new(Some(Modifiers::CONTROL | Modifiers::SHIFT), Code::KeyU))
    );
    assert_eq!(
        parse_hotkey("alt+super+F3"),
        Some(HotKey::new(Some(Modifiers::ALT | Modifiers::SUPER), Code::F3))
    );
    assert_eq!(parse_hotkey("a"), Some(HotKey::new(Some(Modifiers::empty()), Code::KeyA)));
    assert_eq!(parse_hotkey("ctrl+f9"), None);
    for (i, letter) in ('a'..='z').enumerate() {
        let hotkey = parse_hotkey(&letter.to_string()).unwrap();
        assert_eq!(hotkey.key as u32, Code::KeyA as u32 + i as u32);
    }
    for n in 1..=6u32 {
        let hotkey = parse_hotkey(&format!("f{}", n)).unwrap();
        assert_eq!(hotkey.key as u32, Code::F1 as u32 + n - 1);
    }
}

#[test]
fn an_empty_setting_registers_nothing() {
    let mut cfg = Config::default();
    assert_eq!(startup_hotkey(&cfg), None);
    cfg.hotkey = Some(String::new());
    assert_eq!(startup_hotkey(&cfg), None);
    cfg.hotkey = Some("shift+b".to_string());
    assert_eq!(startup_hotkey(&cfg), Some(HotKey::new(Some(Modifiers::SHIFT), Code::KeyB)));
    cfg.hotkey = Some("shift+?".to_string());
    assert_eq!(startup_hotkey(&cfg), None);
}
