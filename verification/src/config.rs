//! The settings: their defaults, and what an absent setting means.
use vstd::prelude::*;

use crate::json::{maybe_json, Json, JsonView};
use crate::text::same_text;

verus! {

/// Which appearance the window follows.
#[derive(Debug, Clone, Copy, PartialEq, Eq, Structural)]
pub enum ThemeMode {
    System,
    Light,
    Dark,
}

impl ThemeMode {
    /// What the mode is called on the screen.
    pub open spec fn name(self) -> Seq<char> {
        match self {
            ThemeMode::System => "跟随系统"@,
            ThemeMode::Light => "浅色"@,
            ThemeMode::Dark => "深色"@,
        }
    }

    /// What the mode is called on the screen.
    pub fn label(self) -> (r: &'static str)
        ensures
            r@ == self.name(),
    {
        match self {
            ThemeMode::System => "跟随系统",
            ThemeMode::Light => "浅色",
            ThemeMode::Dark => "深色",
        }
    }

    /// The mode that a label on the screen stands for; any other text means the
    /// system's own appearance.
    pub open spec fn named(label: Seq<char>) -> ThemeMode {
        if label == "浅色"@ {
            ThemeMode::Light
        } else if label == "深色"@ {
            ThemeMode::Dark
        } else {
            ThemeMode::System
        }
    }

    /// The mode that a label on the screen stands for.
    pub fn from_label(label: &str) -> (r: ThemeMode)
        ensures
            r == ThemeMode::named(label@),
    {
        if same_text(label, "浅色") {
            ThemeMode::Light
        } else if same_text(label, "深色") {
            ThemeMode::Dark
        } else {
            ThemeMode::System
        }
    }
}

/// Choosing a mode by its own label gives that mode.
pub proof fn lemma_theme_label_round_trip(mode: ThemeMode)
    ensures
        ThemeMode::named(mode.name()) == mode,
{
    reveal_strlit("跟随系统");
    reveal_strlit("浅色");
    reveal_strlit("深色");
    assert("跟随系统"@.len() == 4);
    assert("浅色"@[0] != "深色"@[0]);
}

/// The colour of buttons and highlights.
#[derive(Debug, Clone, Copy, PartialEq, Eq, Structural)]
pub enum AccentColor {
    Blue,
    Green,
    Orange,
    Pink,
    Purple,
}

impl AccentColor {
    /// What the colour is called on the screen.
    pub open spec fn name(self) -> Seq<char> {
        match self {
            AccentColor::Blue => "系统蓝"@,
            AccentColor::Green => "青绿"@,
            AccentColor::Orange => "橙色"@,
            AccentColor::Pink => "玫粉"@,
            AccentColor::Purple => "紫色"@,
        }
    }

    /// What the colour is called on the screen.
    pub fn label(self) -> (r: &'static str)
        ensures
            r@ == self.name(),
    {
        match self {
            AccentColor::Blue => "系统蓝",
            AccentColor::Green => "青绿",
            AccentColor::Orange => "橙色",
            AccentColor::Pink => "玫粉",
            AccentColor::Purple => "紫色",
        }
    }
}

/// The settings, as the file holds them; any but the address may be absent.
#[derive(Debug)]
pub struct Config {
    pub upload_url: String,
    pub method: Option<String>,
    pub file_field: Option<String>,
    pub headers: Option<Json>,
    pub response: Option<String>,
    pub copy_to_clipboard: Option<bool>,
    pub auto_watch: Option<bool>,
    pub auto_retry: Option<bool>,
    pub notify_on_success: Option<bool>,
    pub close_to_tray: Option<bool>,
    pub theme_mode: Option<ThemeMode>,
    pub accent_color: Option<AccentColor>,
    pub hotkey: Option<String>,
}

/// The model of a [`Config`].
pub struct ConfigView {
    pub upload_url: Seq<char>,
    pub method: Option<Seq<char>>,
    pub file_field: Option<Seq<char>>,
    pub headers: Option<JsonView>,
    pub response: Option<Seq<char>>,
    pub copy_to_clipboard: Option<bool>,
    pub auto_watch: Option<bool>,
    pub auto_retry: Option<bool>,
    pub notify_on_success: Option<bool>,
    pub close_to_tray: Option<bool>,
    pub theme_mode: Option<ThemeMode>,
    pub accent_color: Option<AccentColor>,
    pub hotkey: Option<Seq<char>>,
}

/// The text of a string that may be absent.
pub open spec fn maybe_text(o: Option<String>) -> Option<Seq<char>> {
    match o {
        Some(s) => Some(s@),
        None => None,
    }
}

/// The text of a setting, or what stands for it where it is absent.
pub open spec fn text_or(o: Option<Seq<char>>, other: Seq<char>) -> Seq<char> {
    match o {
        Some(s) => s,
        None => other,
    }
}

/// A switch, or what stands for it where it is absent.
pub open spec fn flag_or(o: Option<bool>, other: bool) -> bool {
    match o {
        Some(b) => b,
        None => other,
    }
}

impl View for Config {
    type V = ConfigView;

    open spec fn view(&self) -> ConfigView {
        ConfigView {
            upload_url: self.upload_url@,
            method: maybe_text(self.method),
            file_field: maybe_text(self.file_field),
            headers: maybe_json(self.headers),
            response: maybe_text(self.response),
            copy_to_clipboard: self.copy_to_clipboard,
            auto_watch: self.auto_watch,
            auto_retry: self.auto_retry,
            notify_on_success: self.notify_on_success,
            close_to_tray: self.close_to_tray,
            theme_mode: self.theme_mode,
            accent_color: self.accent_color,
            hotkey: maybe_text(self.hotkey),
        }
    }
}

/// Copies a text that may be absent.
pub fn copy_text(o: &Option<String>) -> (r: Option<String>)
    ensures
        maybe_text(r) == maybe_text(*o),
{
    match o {
        Some(s) => Some(s.clone()),
        None => None,
    }
}

impl Clone for Config {
    fn clone(&self) -> (r: Self)
        ensures
            r@ == self@,
    {
        Config {
            upload_url: self.upload_url.clone(),
            method: copy_text(&self.method),
            file_field: copy_text(&self.file_field),
            headers: match &self.headers {
                Some(j) => Some(j.clone()),
                None => None,
            },
            response: copy_text(&self.response),
            copy_to_clipboard: self.copy_to_clipboard,
            auto_watch: self.auto_watch,
            auto_retry: self.auto_retry,
            notify_on_success: self.notify_on_success,
            close_to_tray: self.close_to_tray,
            theme_mode: self.theme_mode,
            accent_color: self.accent_color,
            hotkey: copy_text(&self.hotkey),
        }
    }
}

/// The settings of a first start.
pub open spec fn default_config() -> ConfigView {
    ConfigView {
        upload_url: "https://0x0.st"@,
        method: Some("POST"@),
        file_field: Some("file"@),
        headers: None,
        response: Some("text"@),
        copy_to_clipboard: Some(false),
        auto_watch: Some(false),
        auto_retry: Some(true),
        notify_on_success: Some(false),
        close_to_tray: Some(true),
        theme_mode: Some(ThemeMode::System),
        accent_color: Some(AccentColor::Blue),
        hotkey: None,
    }
}

impl Default for Config {
    fn default() -> (r: Self)
        ensures
            r@ == default_config(),
    {
        Config {
            upload_url: "https://0x0.st".to_owned(),
            method: Some("POST".to_owned()),
            file_field: Some("file".to_owned()),
            headers: None,
            response: Some("text".to_owned()),
            copy_to_clipboard: Some(false),
            auto_watch: Some(false),
            auto_retry: Some(true),
            notify_on_success: Some(false),
            close_to_tray: Some(true),
            theme_mode: Some(ThemeMode::System),
            accent_color: Some(AccentColor::Blue),
            hotkey: None,
        }
    }
}

/// The settings to start with: those that were read, or the defaults where the
/// file is absent, unreadable or malformed.
pub fn config_or_default(read: Option<Config>) -> (r: Config)
    ensures
        match read {
            Some(c) => r@ == c@,
            None => r@ == default_config(),
        },
{
    match read {
        Some(c) => c,
        None => Config::default(),
    }
}

/// Whether a failed upload is tried again by itself: so unless it is switched off.
pub fn auto_retry_enabled(config: &Config) -> (r: bool)
    ensures
        r == flag_or(config@.auto_retry, true),
{
    match config.auto_retry {
        Some(b) => b,
        None => true,
    }
}

/// Whether the clipboard is watched: only where it is switched on.
pub fn watch_enabled(config: &Config) -> (r: bool)
    ensures
        r == flag_or(config@.auto_watch, false),
{
    match config.auto_watch {
        Some(b) => b,
        None => false,
    }
}

/// Whether a link is copied by itself: only where it is switched on.
pub fn copy_enabled(config: &Config) -> (r: bool)
    ensures
        r == flag_or(config@.copy_to_clipboard, false),
{
    match config.copy_to_clipboard {
        Some(b) => b,
        None => false,
    }
}

/// Whether a success is notified: only where it is switched on.
pub fn notify_enabled(config: &Config) -> (r: bool)
    ensures
        r == flag_or(config@.notify_on_success, false),
{
    match config.notify_on_success {
        Some(b) => b,
        None => false,
    }
}

/// Whether closing the window keeps the program running: so unless it is switched off.
pub fn tray_enabled(config: &Config) -> (r: bool)
    ensures
        r == flag_or(config@.close_to_tray, true),
{
    match config.close_to_tray {
        Some(b) => b,
        None => true,
    }
}

/// The appearance in force.
pub open spec fn theme_mode_in(config: ConfigView) -> ThemeMode {
    match config.theme_mode {
        Some(m) => m,
        None => ThemeMode::System,
    }
}

/// The appearance in force.
pub fn config_theme_mode(config: &Config) -> (r: ThemeMode)
    ensures
        r == theme_mode_in(config@),
{
    match config.theme_mode {
        Some(m) => m,
        None => ThemeMode::System,
    }
}

/// The accent colour in force.
pub open spec fn accent_in(config: ConfigView) -> AccentColor {
    match config.accent_color {
        Some(a) => a,
        None => AccentColor::Blue,
    }
}

/// The accent colour in force.
pub fn config_accent_color(config: &Config) -> (r: AccentColor)
    ensures
        r == accent_in(config@),
{
    match config.accent_color {
        Some(a) => a,
        None => AccentColor::Blue,
    }
}

/// The settings with every field that the settings page edits present: an absent
/// one is there with the value that its absence meant.
pub open spec fn editable(config: ConfigView) -> ConfigView {
    ConfigView {
        method: Some(text_or(config.method, "POST"@)),
        file_field: Some(text_or(config.file_field, "file"@)),
        response: Some(text_or(config.response, "text"@)),
        hotkey: Some(text_or(config.hotkey, Seq::empty())),
        copy_to_clipboard: Some(flag_or(config.copy_to_clipboard, false)),
        auto_retry: Some(flag_or(config.auto_retry, true)),
        notify_on_success: Some(flag_or(config.notify_on_success, false)),
        close_to_tray: Some(flag_or(config.close_to_tray, true)),
        auto_watch: Some(flag_or(config.auto_watch, false)),
        ..config
    }
}

/// A setting that is there stays; an absent one becomes what stands for it.
fn keep_text(o: Option<String>, other: &str) -> (r: Option<String>)
    ensures
        maybe_text(r) == Some(text_or(maybe_text(o), other@)),
{
    match o {
        Some(s) => Some(s),
        None => Some(other.to_owned()),
    }
}

/// A switch that is there stays; an absent one becomes what stands for it.
fn keep_flag(o: Option<bool>, other: bool) -> (r: Option<bool>)
    ensures
        r == Some(flag_or(o, other)),
{
    match o {
        Some(b) => Some(b),
        None => Some(other),
    }
}

impl Config {
    /// Makes every field that the settings page edits present.
    pub fn make_editable(&mut self)
        ensures
            final(self)@ == editable(old(self)@),
    {
        self.method = keep_text(self.method.take(), "POST");
        self.file_field = keep_text(self.file_field.take(), "file");
        self.response = keep_text(self.response.take(), "text");
        self.hotkey = keep_text(self.hotkey.take(), "");
        assert(""@ =~= Seq::<char>::empty()) by {
            reveal_strlit("");
        }
        self.copy_to_clipboard = keep_flag(self.copy_to_clipboard, false);
        self.auto_retry = keep_flag(self.auto_retry, true);
        self.notify_on_success = keep_flag(self.notify_on_success, false);
        self.close_to_tray = keep_flag(self.close_to_tray, true);
        self.auto_watch = keep_flag(self.auto_watch, false);
    }
}

/// Opening the settings page changes no setting in force, and opening it again
/// changes nothing at all.
pub proof fn lemma_editing_keeps_meaning(config: ConfigView)
    ensures
        editable(editable(config)) == editable(config),
        text_or(editable(config).method, "POST"@) == text_or(config.method, "POST"@),
        text_or(editable(config).file_field, "file"@) == text_or(config.file_field, "file"@),
        text_or(editable(config).response, "text"@) == text_or(config.response, "text"@),
        flag_or(editable(config).copy_to_clipboard, false) == flag_or(
            config.copy_to_clipboard,
            false,
        ),
        flag_or(editable(config).auto_retry, true) == flag_or(config.auto_retry, true),
        flag_or(editable(config).notify_on_success, false) == flag_or(
            config.notify_on_success,
            false,
        ),
        flag_or(editable(config).close_to_tray, true) == flag_or(config.close_to_tray, true),
        flag_or(editable(config).auto_watch, false) == flag_or(config.auto_watch, false),
        theme_mode_in(editable(config)) == theme_mode_in(config),
        accent_in(editable(config)) == accent_in(config),
        editable(config).upload_url == config.upload_url,
        editable(config).headers == config.headers,
{
}

} // verus!
