//! The settings and how they are changed.
use vstd::prelude::*;

use crate::config::{
    accent_in, default_config, editable, flag_or, text_or, theme_mode_in, AccentColor, ConfigView,
    ThemeMode,
};
use crate::shell::default_shell_config;
use crate::state::{AppTab, BottomTab, RecordView, SettingsTab, StateView};
use crate::window::{
    config_edited, config_saved, copy_told, edited, start_state, CopySource, EditView,
};

verus! {

/// A setting that is there is taken as it is, and another one stands for one that is not.
pub proof fn lemma_setting_or_other(text: Seq<char>, other: Seq<char>, flag: bool, value: bool)
    ensures
        text_or(Some(text), other) == text,
        text_or(None, other) == other,
        flag_or(Some(flag), value) == flag,
        flag_or(None, value) == value,
{
}

/// What the settings are at the first start.
pub proof fn lemma_settings_at_first_start()
    ensures
        default_config().upload_url == "https://0x0.st"@,
        default_config().method == Some("POST"@),
        default_config().file_field == Some("file"@),
        default_config().headers is None,
        default_config().response == Some("text"@),
        default_config().copy_to_clipboard == Some(false),
        default_config().auto_watch == Some(false),
        default_config().auto_retry == Some(true),
        default_config().notify_on_success == Some(false),
        default_config().close_to_tray == Some(true),
        default_config().theme_mode == Some(ThemeMode::System),
        default_config().accent_color == Some(AccentColor::Blue),
        default_config().hotkey is None,
        default_shell_config().upload_url == "https://0x0.st"@,
        default_shell_config().method == Some("POST"@),
        default_shell_config().file_field == Some("file"@),
        default_shell_config().headers is None,
        default_shell_config().response == Some("text"@),
        default_shell_config().copy_to_clipboard == Some(false),
{
}

/// The labels of themes and accents, and the theme that a label stands for: any label but
/// the two of the light and the dark theme stands for that of the system.
pub proof fn lemma_labels(label: Seq<char>)
    ensures
        ThemeMode::System.name() == "跟随系统"@,
        ThemeMode::Light.name() == "浅色"@,
        ThemeMode::Dark.name() == "深色"@,
        ThemeMode::named("浅色"@) == ThemeMode::Light,
        ThemeMode::named("深色"@) == ThemeMode::Dark,
        label != "浅色"@ && label != "深色"@ ==> ThemeMode::named(label) == ThemeMode::System,
        AccentColor::Blue.name() == "系统蓝"@,
        AccentColor::Green.name() == "青绿"@,
        AccentColor::Orange.name() == "橙色"@,
        AccentColor::Pink.name() == "玫粉"@,
        AccentColor::Purple.name() == "紫色"@,
{
    reveal_strlit("浅色");
    reveal_strlit("深色");
    assert("浅色"@[0] != "深色"@[0]);
}

/// The theme and the accent that are chosen, or those of the first start.
pub proof fn lemma_look_in_force(c: ConfigView)
    ensures
        c.theme_mode matches Some(m) ==> theme_mode_in(c) == m,
        c.theme_mode is None ==> theme_mode_in(c) == ThemeMode::System,
        c.accent_color matches Some(a) ==> accent_in(c) == a,
        c.accent_color is None ==> accent_in(c) == AccentColor::Blue,
{
}

/// On the page of the settings every absent one stands as what it means, those that are
/// there stand as they are, and the others are not touched.
pub proof fn lemma_settings_on_the_page(c: ConfigView)
    ensures
        ({
            let e = editable(c);
            &&& e.method == (if c.method is Some {
                c.method
            } else {
                Some("POST"@)
            })
            &&& e.file_field == (if c.file_field is Some {
                c.file_field
            } else {
                Some("file"@)
            })
            &&& e.response == (if c.response is Some {
                c.response
            } else {
                Some("text"@)
            })
            &&& e.hotkey == (if c.hotkey is Some {
                c.hotkey
            } else {
                Some(Seq::empty())
            })
            &&& e.copy_to_clipboard == Some(c.copy_to_clipboard == Some(true))
            &&& e.auto_watch == Some(c.auto_watch == Some(true))
            &&& e.notify_on_success == Some(c.notify_on_success == Some(true))
            &&& e.auto_retry == Some(c.auto_retry != Some(false))
            &&& e.close_to_tray == Some(c.close_to_tray != Some(false))
            &&& e.upload_url == c.upload_url
            &&& e.headers == c.headers
            &&& e.theme_mode == c.theme_mode
            &&& e.accent_color == c.accent_color
        }),
{
}

/// A change of a text sets that text and no other setting.
pub proof fn lemma_change_of_a_text(c: ConfigView, t: Seq<char>)
    ensures
        config_edited(c, EditView::UploadUrl(t)) == (ConfigView { upload_url: t, ..c }),
        config_edited(c, EditView::Method(t)) == (ConfigView { method: Some(t), ..c }),
        config_edited(c, EditView::FileField(t)) == (ConfigView { file_field: Some(t), ..c }),
        config_edited(c, EditView::Response(t)) == (ConfigView { response: Some(t), ..c }),
        config_edited(c, EditView::Hotkey(t)) == (ConfigView { hotkey: Some(t), ..c }),
{
}

/// A change of a switch or a choice sets that one and no other setting.
pub proof fn lemma_change_of_a_choice(c: ConfigView, b: bool, m: ThemeMode, a: AccentColor)
    ensures
        config_edited(c, EditView::Copy(b)) == (ConfigView { copy_to_clipboard: Some(b), ..c }),
        config_edited(c, EditView::AutoRetry(b)) == (ConfigView { auto_retry: Some(b), ..c }),
        config_edited(c, EditView::Notify(b)) == (ConfigView { notify_on_success: Some(b), ..c }),
        config_edited(c, EditView::CloseToTray(b)) == (ConfigView { close_to_tray: Some(b), ..c }),
        config_edited(c, EditView::Watch(b)) == (ConfigView { auto_watch: Some(b), ..c }),
        config_edited(c, EditView::Theme(m)) == (ConfigView { theme_mode: Some(m), ..c }),
        config_edited(c, EditView::Accent(a)) == (ConfigView { accent_color: Some(a), ..c }),
{
}

/// Every change marks the settings as not saved; one of the watch also switches it on the
/// screen, and no other does. Nothing else of the state changes.
pub proof fn lemma_change_of_the_state(s: StateView, change: EditView)
    ensures
        edited(s, change).config_dirty,
        edited(s, change).config == config_edited(s.config, change),
        change matches EditView::Watch(b) ==> edited(s, change).watch_active == b,
        !(change is Watch) ==> edited(s, change).watch_active == s.watch_active,
        edited(s, change) == (StateView {
            config: edited(s, change).config,
            watch_active: edited(s, change).watch_active,
            config_dirty: true,
            ..s
        }),
{
}

/// Settings that were saved are no longer marked, and a message that passes says so; with
/// an error they stay marked as they were, and a message that stays tells the error.
pub proof fn lemma_saving(s: StateView, e: Seq<char>, now: u64)
    requires
        now <= u64::MAX - 300_000_000_000,
    ensures
        config_saved(s, None, now) == (StateView {
            config_dirty: false,
            status: Some((false, "配置已保存"@)),
            status_clear_at: Some((now + 3_000_000_000) as u64),
            ..s
        }),
        config_saved(s, Some(e), now) == (StateView {
            status: Some((true, "保存失败: "@ + e)),
            status_clear_at: None,
            ..s
        }),
{
}

/// A copy that went well is told by a message that passes and that says what was copied;
/// one that did not is not told, and nothing else changes.
pub proof fn lemma_copying(s: StateView, source: CopySource, now: u64)
    requires
        now <= u64::MAX - 300_000_000_000,
    ensures
        copy_told(s, source, false, now) == s,
        ({
            let n = copy_told(s, source, true, now);
            &&& n.status == Some(
                (
                    false,
                    match source {
                        CopySource::Tray(url) => "已复制: "@ + url@,
                        CopySource::LastLink => "已复制到剪贴板"@,
                        CopySource::Task => "已复制任务链接"@,
                        CopySource::History => "已复制历史链接"@,
                    },
                ),
            )
            &&& n.status_clear_at == Some((now + 3_000_000_000) as u64)
            &&& n == StateView { status: n.status, status_clear_at: n.status_clear_at, ..s }
        }),
{
}

/// The program starts with its settings and its history, the watch as the settings have
/// it, and nothing else: no task, no message, no link, the overview on the screen.
pub proof fn lemma_start(config: ConfigView, history: Seq<RecordView>)
    ensures
        ({
            let s = start_state(config, history);
            &&& s.config == config
            &&& s.history == history
            &&& s.watch_active == (config.auto_watch == Some(true))
            &&& s.tasks.len() == 0
            &&& s.next_task_id == 0
            &&& s.status is None
            &&& s.status_clear_at is None
            &&& s.last_url is None
            &&& !s.quit_requested
            &&& !s.config_dirty
            &&& s.active_tab == AppTab::Overview
            &&& s.settings_tab == SettingsTab::Config
            &&& s.bottom_tab == BottomTab::Tasks
        }),
{
}

} // verus!
