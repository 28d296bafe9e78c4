use rust_clipboard_uploader::config::{
    auto_retry_enabled, config_accent_color, config_or_default, config_theme_mode, copy_enabled,
    notify_enabled, tray_enabled, watch_enabled, AccentColor, Config, ThemeMode,
};
use rust_clipboard_uploader::json::parse_json;
use rust_clipboard_uploader::shell::{get_config, save_config, ShellConfig};

fn absent() -> Config {
    Config {
        upload_url: "https://example.com/upload".to_string(),
        method: None,
        file_field: None,
        headers: None,
        response: None,
        copy_to_clipboard: None,
        auto_watch: None,
        auto_retry: None,
        notify_on_success: None,
        close_to_tray: None,
        theme_mode: None,
        accent_color: None,
        hotkey: None,
    }
}

#[test]
fn first_start_has_the_defaults() {
    let cfg = config_or_default(None);
    assert_eq!(cfg.upload_url, "https://0x0.st");
    assert_eq!(cfg.method.as_deref(), Some("POST"));
    assert_eq!(cfg.file_field.as_deref(), Some("file"));
    assert!(cfg.headers.is_none());
    assert_eq!(cfg.response.as_deref(), Some("text"));
    assert_eq!(cfg.copy_to_clipboard, Some(false));
    assert_eq!(cfg.auto_watch, Some(false));
    assert_eq!(cfg.auto_retry, Some(true));
    assert_eq!(cfg.notify_on_success, Some(false));
    assert_eq!(cfg.close_to_tray, Some(true));
    assert_eq!(cfg.theme_mode, Some(ThemeMode::System));
    assert_eq!(cfg.accent_color, Some(AccentColor::Blue));
    assert_eq!(cfg.hotkey, None);
}

#[test]
fn what_was_read_is_taken() {
    let cfg = config_or_default(Some(absent()));
    assert_eq!(cfg.upload_url, "https://example.com/upload");
    assert_eq!(cfg.method, None);
}

#[test]
fn absent_switches_have_a_meaning() {
    let cfg = absent();
    assert!(auto_retry_enabled(&cfg));
    assert!(!watch_enabled(&cfg));
    assert!(!copy_enabled(&cfg));
    assert!(!notify_enabled(&cfg));
    assert!(tray_enabled(&cfg));
    assert_eq!(config_theme_mode(&cfg), ThemeMode::System);
    assert_eq!(config_accent_color(&cfg), AccentColor::Blue);
}

#[test]
fn present_switches_are_obeyed() {
    let mut cfg = absent();
    cfg.auto_retry = Some(false);
    cfg.auto_watch = Some(true);
    cfg.copy_to_clipboard = Some(true);
    cfg.notify_on_success = Some(true);
    cfg.close_to_tray = Some(false);
    cfg.theme_mode = Some(ThemeMode::Dark);
    cfg.accent_color = Some(AccentColor::Pink);
    assert!(!auto_retry_enabled(&cfg));
    assert!(watch_enabled(&cfg));
    assert!(copy_enabled(&cfg));
    assert!(notify_enabled(&cfg));
    assert!(!tray_enabled(&cfg));
    assert_eq!(config_theme_mode(&cfg), ThemeMode::Dark);
    assert_eq!(config_accent_color(&cfg), AccentColor::Pink);
}

#[test]
fn opening_the_settings_keeps_their_meaning() {
    let mut cfg = absent();
    cfg.headers = parse_json("{\"a\":\"b\"}");
    cfg.hotkey = Some("f1".to_string());
    cfg.make_editable();
    assert_eq!(cfg.method.as_deref(), Some("POST"));
    assert_eq!(cfg.file_field.as_deref(), Some("file"));
    assert_eq!(cfg.response.as_deref(), Some("text"));
    assert_eq!(cfg.hotkey.as_deref(), Some("f1"));
    assert_eq!(cfg.copy_to_clipboard, Some(false));
    assert_eq!(cfg.auto_retry, Some(true));
    assert_eq!(cfg.notify_on_success, Some(false));
    assert_eq!(cfg.close_to_tray, Some(true));
    assert_eq!(cfg.auto_watch, Some(false));
    assert_eq!(cfg.theme_mode, None);
    assert_eq!(cfg.headers.unwrap().text, "{\"a\":\"b\"}");
}

#[test]
fn labels_name_the_modes() {
    for mode in [ThemeMode::System, ThemeMode::Light, ThemeMode::Dark] {
        assert_eq!(ThemeMode::from_label(mode.label()), mode);
    }
    assert_eq!(ThemeMode::System.label(), "跟随系统");
    assert_eq!(ThemeMode::from_label("?"), ThemeMode::System);
    let labels: Vec<&str> = [
        AccentColor::Blue,
        AccentColor::Green,
        AccentColor::Orange,
        AccentColor::Pink,
        AccentColor::Purple,
    ]
    .iter()
    .map(|a| a.label())
    .collect();
    assert_eq!(labels, vec!["系统蓝", "青绿", "橙色", "玫粉", "紫色"]);
}

#[test]
fn copies_of_the_settings_are_the_same() {
    let mut cfg = Config::default();
    cfg.headers = parse_json("{\"a\":{\"b\":[1]}}");
    let copy = cfg.clone();
    assert_eq!(copy.upload_url, cfg.upload_url);
    assert_eq!(copy.method, cfg.method);
    assert_eq!(copy.headers.unwrap().text, "{\"a\":{\"b\":[1]}}");
}

#[test]
fn the_second_shell_answers() {
    let first = get_config(None).unwrap();
    assert_eq!(first.upload_url, Config::default().upload_url);
    assert_eq!(first.method, Config::default().method);
    assert_eq!(first.copy_to_clipboard, Some(false));
    let mut own = ShellConfig::default();
    own.upload_url = "https://example.com".to_string();
    assert_eq!(get_config(Some(own.clone())).unwrap().upload_url, "https://example.com");
    assert_eq!(save_config(true), Ok(()));
    assert_eq!(save_config(false), Err("保存失败".to_string()));
}
