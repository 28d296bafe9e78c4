use rust_clipboard_uploader::config::{AccentColor, Config, ThemeMode};
use rust_clipboard_uploader::events::AppEvent;
use rust_clipboard_uploader::state::{
    AppState, AppTab, BottomTab, HistoryRecord, SettingsTab,
};
use rust_clipboard_uploader::task::TaskStatus;
use rust_clipboard_uploader::window::{CopySource, Edit, FrameEnd};

const SECOND: u64 = 1_000_000_000;

fn record(id: i64) -> HistoryRecord {
    HistoryRecord {
        id,
        url: format!("https://x/{}", id),
        src: String::new(),
        uploaded_at: "2026-01-01 00:00:00".to_string(),
    }
}

fn fresh() -> AppState {
    AppState::start(Config::default(), vec![record(2), record(1)])
}

fn with_tasks() -> AppState {
    let mut state = fresh();
    for n in 0..4u8 {
        state.on_event(AppEvent::WatchUpload(vec![n]), String::new(), 0);
    }
    state.on_progress(1, TaskStatus::Success("u".to_string(), String::new()), 0);
    state.on_progress(
        2,
        TaskStatus::Failed { message: "m".to_string(), retryable: false },
        0,
    );
    state.on_progress(
        3,
        TaskStatus::Failed { message: "m".to_string(), retryable: true },
        0,
    );
    state
}

fn ids(state: &AppState) -> Vec<usize> {
    state.tasks.iter().map(|t| t.id).collect()
}

#[test]
fn the_start_is_quiet() {
    let mut cfg = Config::default();
    cfg.auto_watch = Some(true);
    let state = AppState::start(cfg, vec![record(1)]);
    assert!(state.watch_active);
    assert!(state.tasks.is_empty());
    assert_eq!(state.next_task_id, 0);
    assert_eq!(state.history.len(), 1);
    assert_eq!(state.active_tab, AppTab::Overview);
    assert_eq!(state.settings_tab, SettingsTab::Config);
    assert_eq!(state.bottom_tab, BottomTab::Tasks);
    assert!(!state.config_dirty);
    assert!(!state.quit_requested);
    assert_eq!(state.status, None);
}

#[test]
fn passing_messages_pass() {
    let mut state = fresh();
    state.set_status_auto_clear(false, "done".to_string(), 10 * SECOND);
    state.begin_frame(13 * SECOND - 1);
    assert_eq!(state.status, Some((false, "done".to_string())));
    state.begin_frame(13 * SECOND);
    assert_eq!(state.status, None);
    assert_eq!(state.status_clear_at, None);
    state.set_status_sticky(true, "stays".to_string());
    state.begin_frame(1000 * SECOND);
    assert_eq!(state.status, Some((true, "stays".to_string())));
}

#[test]
fn images_are_kept_five_minutes() {
    let mut state = fresh();
    state.on_event(AppEvent::WatchUpload(vec![1]), String::new(), 0);
    state.begin_frame(300 * SECOND);
    assert_eq!(state.tasks[0].image_data, vec![1]);
    state.begin_frame(300 * SECOND + 1);
    assert!(state.tasks[0].image_data.is_empty());
    assert_eq!(state.tasks[0].data_expires_at, None);
}

#[test]
fn an_empty_image_keeps_its_time() {
    let mut state = fresh();
    state.on_event(AppEvent::WatchUpload(vec![]), String::new(), 0);
    state.begin_frame(301 * SECOND);
    assert_eq!(state.tasks[0].data_expires_at, Some(300 * SECOND));
}

#[test]
fn closing_hides_or_closes() {
    let mut state = fresh();
    assert_eq!(state.frame_end(false), FrameEnd::Draw);
    assert_eq!(state.frame_end(true), FrameEnd::Hide);
    state.config.close_to_tray = Some(false);
    assert_eq!(state.frame_end(true), FrameEnd::Draw);
    state.config.close_to_tray = None;
    assert_eq!(state.frame_end(true), FrameEnd::Hide);
    state.on_event(AppEvent::TrayQuit, String::new(), 0);
    assert_eq!(state.frame_end(true), FrameEnd::Quit);
    assert_eq!(state.frame_end(false), FrameEnd::Quit);
}

#[test]
fn the_window_is_drawn_soon_or_seldom() {
    let mut state = fresh();
    assert_eq!(state.repaint_millis(), 2000);
    state.set_status_sticky(false, "x".to_string());
    assert_eq!(state.repaint_millis(), 2000);
    state.set_status_auto_clear(false, "x".to_string(), 0);
    assert_eq!(state.repaint_millis(), 200);
    assert_eq!(with_tasks().repaint_millis(), 200);
}

#[test]
fn tasks_are_counted_once() {
    let state = with_tasks();
    let counts = state.counts();
    assert_eq!((counts.active, counts.failed, counts.succeeded), (2, 1, 1));
    assert_eq!(counts.active + counts.failed + counts.succeeded, state.tasks.len());
}

#[test]
fn clearing_keeps_what_is_under_way() {
    let mut state = with_tasks();
    state.clear_finished();
    assert_eq!(ids(&state), vec![0, 3]);
}

#[test]
fn a_removed_task_stays_gone() {
    let mut state = with_tasks();
    state.remove_task(3);
    assert_eq!(ids(&state), vec![0, 1, 2]);
    assert!(state.on_event(AppEvent::RetryTask(3), String::new(), 0).is_empty());
    assert_eq!(ids(&state), vec![0, 1, 2]);
    state.remove_task(77);
    assert_eq!(ids(&state), vec![0, 1, 2]);
}

#[test]
fn the_history_is_edited() {
    let mut state = fresh();
    state.delete_record(2);
    assert_eq!(state.history.len(), 1);
    assert_eq!(state.history[0].id, 1);
    state.set_history(vec![record(5), record(4)]);
    assert_eq!(state.history[0].url, "https://x/5");
    state.clear_history();
    assert!(state.history.is_empty());
}

#[test]
fn copies_are_told_of() {
    let cases: [(CopySource, &str); 4] = [
        (CopySource::Tray("u".to_string()), "已复制: u"),
        (CopySource::LastLink, "已复制到剪贴板"),
        (CopySource::Task, "已复制任务链接"),
        (CopySource::History, "已复制历史链接"),
    ];
    for (source, message) in cases {
        let mut state = fresh();
        state.copy_finished(source, true, SECOND);
        assert_eq!(state.status, Some((false, message.to_string())));
        assert_eq!(state.status_clear_at, Some(4 * SECOND));
    }
    let mut state = fresh();
    state.copy_finished(CopySource::Task, false, SECOND);
    assert_eq!(state.status, None);
}

#[test]
fn changes_are_unsaved_until_written() {
    let mut state = fresh();
    assert!(!state.edit(Edit::UploadUrl("https://y".to_string())));
    assert!(state.config_dirty);
    assert_eq!(state.config.upload_url, "https://y");
    state.save_finished(Some("disk full".to_string()), 0);
    assert!(state.config_dirty);
    assert_eq!(state.status, Some((true, "保存失败: disk full".to_string())));
    state.save_finished(None, 0);
    assert!(!state.config_dirty);
    assert_eq!(state.status, Some((false, "配置已保存".to_string())));
    assert_eq!(state.status_clear_at, Some(3 * SECOND));
}

#[test]
fn every_setting_can_be_changed() {
    let mut state = fresh();
    state.edit(Edit::Method("PUT".to_string()));
    state.edit(Edit::FileField("f".to_string()));
    state.edit(Edit::Response("json.url".to_string()));
    state.edit(Edit::Hotkey("f2".to_string()));
    state.edit(Edit::Copy(true));
    state.edit(Edit::AutoRetry(false));
    state.edit(Edit::Notify(true));
    state.edit(Edit::CloseToTray(false));
    assert!(state.edit(Edit::Watch(true)));
    state.edit(Edit::Theme(ThemeMode::Light));
    state.edit(Edit::Accent(AccentColor::Green));
    let c = &state.config;
    assert_eq!(c.method.as_deref(), Some("PUT"));
    assert_eq!(c.file_field.as_deref(), Some("f"));
    assert_eq!(c.response.as_deref(), Some("json.url"));
    assert_eq!(c.hotkey.as_deref(), Some("f2"));
    assert_eq!(c.copy_to_clipboard, Some(true));
    assert_eq!(c.auto_retry, Some(false));
    assert_eq!(c.notify_on_success, Some(true));
    assert_eq!(c.close_to_tray, Some(false));
    assert_eq!(c.auto_watch, Some(true));
    assert_eq!(c.theme_mode, Some(ThemeMode::Light));
    assert_eq!(c.accent_color, Some(AccentColor::Green));
    assert!(state.watch_active);
}

#[test]
fn tabs_are_switched() {
    let mut state = fresh();
    assert!(!state.select_page(AppTab::Upload, false));
    assert!(!state.select_page(AppTab::Overview, true));
    assert!(state.select_page(AppTab::Upload, true));
    assert_eq!(state.active_tab, AppTab::Upload);
    assert!(state.select_settings(SettingsTab::Appearance, true));
    assert!(!state.select_settings(SettingsTab::Appearance, true));
    assert!(!state.select_list(BottomTab::Tasks, true));
    assert!(state.select_list(BottomTab::History, true));
    assert!(!state.select_list(BottomTab::History, true));
    assert!(!state.select_list(BottomTab::Tasks, true));
    state.go_to_activity();
    assert_eq!(state.active_tab, AppTab::Activity);
    state.go_to_settings();
    assert_eq!(state.active_tab, AppTab::Settings);
    assert_eq!(state.settings_tab, SettingsTab::Config);
    let labels: Vec<&str> = [AppTab::Overview, AppTab::Upload, AppTab::Activity, AppTab::Settings]
        .iter()
        .map(|t| t.label())
        .collect();
    assert_eq!(labels, vec!["概览", "上传", "活动", "设置"]);
    assert_eq!(SettingsTab::Config.label(), "配置");
    assert_eq!(SettingsTab::Appearance.label(), "外观");
}

#[test]
fn the_settings_page_makes_settings_present() {
    let mut state = fresh();
    state.config.method = None;
    state.config.hotkey = None;
    state.open_settings_page();
    assert_eq!(state.config.method.as_deref(), Some("POST"));
    assert_eq!(state.config.hotkey.as_deref(), Some(""));
    assert!(!state.config_dirty);
}

#[test]
fn a_click_on_the_choice_in_force_changes_nothing() {
    let mut state = fresh();
    state.config.accent_color = None;
    assert!(!state.choose_accent(AccentColor::Blue, true));
    assert!(!state.choose_accent(AccentColor::Green, false));
    assert_eq!(state.config.accent_color, None);
    state.config.theme_mode = None;
    assert!(!state.choose_theme(ThemeMode::System, true));
    assert!(!state.choose_theme(ThemeMode::Dark, false));
    assert_eq!(state.config.theme_mode, None);
    assert!(!state.config_dirty);
    assert!(state.choose_accent(AccentColor::Green, true));
    assert_eq!(state.config.accent_color, Some(AccentColor::Green));
    assert!(state.config_dirty);
    state.config_dirty = false;
    assert!(state.choose_theme(ThemeMode::Dark, true));
    assert_eq!(state.config.theme_mode, Some(ThemeMode::Dark));
    assert!(state.config_dirty);
}
