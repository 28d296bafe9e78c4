use rust_clipboard_uploader::config::{AccentColor, Config, ThemeMode};
use rust_clipboard_uploader::events::AppEvent;
use rust_clipboard_uploader::state::{AppState, BottomTab, HistoryRecord};
use rust_clipboard_uploader::task::TaskStatus;
use rust_clipboard_uploader::theme::{
    accent_button_colors, accent_color, accent_color_soft, apple_green, apple_orange, apple_red,
    background_glow, build_theme_style, input_colors, nothing, opaque, segment_colors, see_through,
    tab_colors, theme_palette, toggle_colors, white, Paint, Theme,
};
use rust_clipboard_uploader::view::{
    choose_word, flip_switch, metric_paints, summary_paints, system_theme_text, ClearButton,
    LineKind, SystemTheme,
};

fn fresh() -> AppState {
    AppState::start(Config::default(), vec![])
}

fn busy(n: u8) -> AppState {
    let mut state = fresh();
    for i in 0..n {
        state.on_event(AppEvent::WatchUpload(vec![i]), format!("10:00:0{}", i), 0);
    }
    state
}

#[test]
fn palettes_have_their_colours() {
    let light = theme_palette(Theme::Light, AccentColor::Blue);
    assert_eq!(light.accent, opaque(10, 132, 255));
    assert_eq!(light.bg, opaque(242, 244, 248));
    assert_eq!(light.card, see_through(white(), 244));
    assert_eq!(light.glow_a, see_through(opaque(10, 132, 255), 22));
    assert_eq!(light.shadow, see_through(opaque(0, 0, 0), 14));
    let dark = theme_palette(Theme::Dark, AccentColor::Purple);
    assert_eq!(dark.accent, opaque(191, 90, 242));
    assert_eq!(dark.muted, opaque(154, 160, 173));
    assert_eq!(dark.glow_b, see_through(white(), 18));
    assert_eq!(background_glow(Theme::Dark), see_through(opaque(52, 199, 89), 26));
    assert_eq!(background_glow(Theme::Light), see_through(opaque(52, 199, 89), 16));
}

#[test]
fn accents_have_their_colours() {
    assert_eq!(accent_color(AccentColor::Green), opaque(48, 209, 88));
    assert_eq!(accent_color(AccentColor::Pink), opaque(255, 55, 95));
    assert_eq!(
        accent_color_soft(AccentColor::Orange, true),
        Paint::Faded(opaque(255, 159, 10), 28)
    );
    assert_eq!(
        accent_color_soft(AccentColor::Orange, false),
        Paint::Faded(opaque(255, 159, 10), 12)
    );
    let light = theme_palette(Theme::Light, AccentColor::Pink);
    let dark = theme_palette(Theme::Dark, AccentColor::Pink);
    assert_eq!(light.accent, dark.accent);
}

#[test]
fn styles_have_their_colours() {
    let style = build_theme_style(Theme::Dark, AccentColor::Blue);
    let p = theme_palette(Theme::Dark, AccentColor::Blue);
    assert_eq!(style.palette, p);
    assert_eq!(style.popup_shadow, Paint::Faded(p.shadow, 80));
    assert_eq!(style.noninteractive.bg_fill, p.card);
    assert_eq!(style.inactive.bg_fill, p.row);
    assert_eq!(style.inactive.bg_stroke, p.border);
    assert_eq!(style.hovered.bg_stroke, see_through(p.accent, 148));
    assert_eq!(style.active.bg_fill, p.accent);
    assert_eq!(style.active.fg_stroke, white());
    assert_eq!(style.open, style.hovered);
    let light = build_theme_style(Theme::Light, AccentColor::Blue);
    assert_eq!(light.hovered.bg_stroke.a, 96);
}

#[test]
fn widgets_have_their_colours() {
    let p = theme_palette(Theme::Light, AccentColor::Blue);
    assert_eq!(tab_colors(p, true).fill, Paint::Plain(p.accent));
    assert_eq!(tab_colors(p, true).text, white());
    assert_eq!(tab_colors(p, false).fill, Paint::Plain(p.row));
    assert_eq!(tab_colors(p, false).stroke, p.border);
    assert_eq!(segment_colors(p, false).fill, Paint::Plain(nothing()));
    assert_eq!(segment_colors(p, true).stroke, p.accent);
    let chosen = accent_button_colors(p, AccentColor::Green, true, false);
    assert_eq!(chosen.fill, Paint::Plain(opaque(48, 209, 88)));
    let idle = accent_button_colors(p, AccentColor::Green, false, true);
    assert_eq!(idle.fill, Paint::Faded(opaque(48, 209, 88), 28));
    assert_eq!(idle.stroke, p.border);
    let on = toggle_colors(true, false, false);
    assert_eq!(on.track_fill, apple_green());
    assert_eq!(on.track_stroke, nothing());
    assert_eq!(on.knob_stroke, see_through(opaque(15, 23, 42), 24));
    let off = toggle_colors(false, true, true);
    assert_eq!(off.track_fill, opaque(160, 167, 179));
    assert_eq!(off.track_stroke, see_through(white(), 48));
    assert_eq!(input_colors(p, true).hover_stroke, see_through(p.accent, 136));
    assert_eq!(input_colors(p, false).fill, opaque(248, 250, 253));
    let red = apple_red();
    assert_eq!(metric_paints(red, true), (Paint::Faded(red, 22), Paint::Faded(red, 35)));
    assert_eq!(summary_paints(red, false), (Paint::Faded(red, 12), Paint::Faded(red, 95)));
}

#[test]
fn badges_say_what_goes_on() {
    let p = theme_palette(Theme::Light, AccentColor::Blue);
    let idle = fresh().upload_badge(true, p, false);
    assert_eq!(idle.text, "准备就绪");
    assert_eq!(idle.fill, Paint::Faded(apple_green(), 12));
    let wide = busy(3).upload_badge(true, p, true);
    assert_eq!(wide.text, "3 个任务处理中");
    assert_eq!(wide.fill, Paint::Faded(p.accent, 28));
    assert_eq!(wide.color, Paint::Plain(p.accent));
    assert_eq!(busy(1).upload_badge(false, p, false).text, "正在处理任务");

    let mut state = fresh();
    assert_eq!(state.watch_badge(p, true).text, "自动监听关闭");
    assert_eq!(
        state.watch_badge(p, true).fill,
        Paint::Plain(see_through(opaque(111, 118, 132), 46))
    );
    assert_eq!(state.watch_pill(p).text, "未开启");
    assert_eq!(state.watch_word(), "OFF");
    assert_eq!(state.config_badge(p, false).text, "配置已保存");
    assert_eq!(state.config_badge(p, false).color, Paint::Plain(p.text));
    assert_eq!(state.save_text(), "保存配置");
    state.config.auto_watch = Some(true);
    state.watch_active = true;
    state.config_dirty = true;
    assert_eq!(state.watch_badge(p, false).text, "自动监听开启");
    assert_eq!(state.watch_pill(p).text, "运行中");
    assert_eq!(state.watch_word(), "ON");
    assert_eq!(state.config_badge(p, true).text, "配置待保存");
    assert_eq!(state.config_badge(p, true).fill, Paint::Faded(apple_orange(), 25));
    assert_eq!(state.save_text(), "保存更改 ●");
    assert_eq!(state.upload_button(), ("从剪贴板上传", true));
    assert_eq!(busy(1).upload_button(), ("上传中...", false));
}

#[test]
fn the_banner_tells_the_most_urgent() {
    let p = theme_palette(Theme::Dark, AccentColor::Blue);
    let mut state = fresh();
    let b = state.banner(p);
    assert_eq!((b.icon, b.title.as_str()), ("待命", "应用已就绪"));
    assert_eq!(b.fill, Paint::Plain(p.row));
    state.on_event(AppEvent::WatchUpload(vec![1]), String::new(), 0);
    let b = state.banner(p);
    assert_eq!((b.icon, b.title.as_str()), ("处理中", "正在上传新的剪贴板图片"));
    state.set_status_sticky(true, "broken".to_string());
    let b = state.banner(p);
    assert_eq!((b.icon, b.title.as_str()), ("失败", "broken"));
    assert_eq!(b.stroke, Paint::Faded(apple_red(), 35));
    state.set_status_sticky(false, "good".to_string());
    let b = state.banner(p);
    assert_eq!((b.icon, b.title.as_str()), ("完成", "good"));
    assert_eq!(b.detail, "状态提示会在几秒后自动清除。");
}

#[test]
fn summaries_have_their_lines() {
    let p = theme_palette(Theme::Light, AccentColor::Green);
    let mut state = busy(1);
    state.on_progress(0, TaskStatus::Success("u".to_string(), String::new()), 0);
    state.config.copy_to_clipboard = Some(true);
    state.config.close_to_tray = Some(false);
    let rows: Vec<(&str, String)> =
        state.preference_rows(p).into_iter().map(|r| (r.label, r.value)).collect();
    let expected = vec![
        ("自动复制", "开启".to_string()),
        ("系统通知", "关闭".to_string()),
        ("关闭窗口", "直接退出".to_string()),
        ("已完成任务", "1".to_string()),
    ];
    assert_eq!(rows, expected);
    assert_eq!(state.preference_rows(p)[0].tint, apple_green());
    assert_eq!(state.preference_rows(p)[1].tint, p.muted);

    state.config.theme_mode = Some(ThemeMode::Dark);
    state.config.accent_color = Some(AccentColor::Pink);
    let wide: Vec<(&str, String)> = state
        .overview_rows(true, SystemTheme::Known(Theme::Light), p)
        .into_iter()
        .map(|r| (r.label, r.value))
        .collect();
    let expected = vec![
        ("当前主题", "深色".to_string()),
        ("主题色", "玫粉".to_string()),
        ("失败任务", "0".to_string()),
        ("系统主题", "浅色".to_string()),
    ];
    assert_eq!(wide, expected);
    assert_eq!(state.overview_rows(false, SystemTheme::Unknown, p).len(), 3);
    assert_eq!(system_theme_text(SystemTheme::Known(Theme::Dark)), "系统当前为深色");
    assert_eq!(system_theme_text(SystemTheme::Unknown), "当前平台没有提供系统主题信息");
}

#[test]
fn tabs_and_buttons_over_the_lists() {
    let mut state = fresh();
    assert_eq!(state.task_label(), "任务 0");
    assert_eq!(state.history_label(), "历史 0");
    assert_eq!(state.clear_button(), ClearButton::Absent);
    state.bottom_tab = BottomTab::History;
    assert_eq!(state.clear_button(), ClearButton::Absent);
    state.set_history(vec![HistoryRecord {
        id: 1,
        url: "u".to_string(),
        src: String::new(),
        uploaded_at: String::new(),
    }]);
    assert_eq!(state.clear_button(), ClearButton::History);
    assert_eq!(state.history_label(), "历史 1");
    let mut state = busy(2);
    assert_eq!(state.clear_button(), ClearButton::Finished);
    assert_eq!(state.task_label(), "任务 2");
    state.on_progress(0, TaskStatus::Failed { message: String::new(), retryable: false }, 0);
    assert_eq!(state.task_label(), "任务 1");
    state.on_progress(1, TaskStatus::Success(String::new(), String::new()), 0);
    assert_eq!(state.task_label(), "任务 1 失败");
    state.remove_task(0);
    assert_eq!(state.task_label(), "任务 1");
}

#[test]
fn cards_stand_in_reverse_and_offer_what_fits() {
    let p = theme_palette(Theme::Dark, AccentColor::Blue);
    let mut state = busy(5);
    state.on_progress(1, TaskStatus::Processing, 0);
    state.on_progress(2, TaskStatus::Success("link".to_string(), "origin".to_string()), 0);
    state.on_progress(3, TaskStatus::Failed { message: "m".to_string(), retryable: true }, 0);
    state.tasks[4].image_data = vec![];
    state.on_progress(4, TaskStatus::Failed { message: "n".to_string(), retryable: false }, 0);
    let cards = state.task_cards(p, true);
    let badges: Vec<&str> = cards.iter().map(|c| c.badge.text.as_str()).collect();
    assert_eq!(badges, vec!["失败", "自动重试", "已完成", "处理中", "上传中"]);
    let order: Vec<usize> = cards.iter().map(|c| c.id).collect();
    assert_eq!(order, vec![4, 3, 2, 1, 0]);
    assert_eq!(cards[4].created_at, "10:00:00");
    let removable: Vec<bool> = cards.iter().map(|c| c.removable).collect();
    assert_eq!(removable, vec![true, true, true, false, false]);
    let retryable: Vec<bool> = cards.iter().map(|c| c.retryable).collect();
    assert_eq!(retryable, vec![true, false, false, false, false]);
    assert_eq!(cards[2].link.as_deref(), Some("link"));
    assert_eq!(cards[3].link, None);

    let lines = |i: usize| -> Vec<(LineKind, &str)> {
        cards[i].lines.iter().map(|l| (l.kind, l.text.as_str())).collect()
    };
    assert_eq!(
        lines(0),
        vec![
            (LineKind::Failure, "n"),
            (LineKind::Advice, "这类错误不会自动重试，请检查上传地址、请求头或响应解析配置。"),
            (LineKind::Advice, "图片缓存已释放，重试时会重新读取剪贴板。"),
        ]
    );
    assert_eq!(
        lines(1),
        vec![
            (LineKind::Failure, "最近一次失败: m"),
            (LineKind::Wait, "将在 2 秒后自动重试（第 1/2 次）。"),
        ]
    );
    assert_eq!(lines(2), vec![(LineKind::Link, "link"), (LineKind::Source, "src: origin")]);
    assert_eq!(lines(3), vec![(LineKind::Progress, "文件已发送完成，正在等待服务端处理结果。")]);
    assert_eq!(lines(4), vec![(LineKind::Progress, "正在上传剪贴板图片到服务器。")]);
    assert_eq!(cards[0].fill, opaque(57, 28, 31));
    assert_eq!(cards[1].stroke, Paint::Faded(apple_orange(), 30));
    assert_eq!(cards[3].badge.fill, Paint::Faded(opaque(10, 132, 255), 28));
    assert_eq!(state.task_cards(p, false)[2].fill, opaque(244, 252, 246));
}

#[test]
fn history_cards_show_links() {
    let p = theme_palette(Theme::Light, AccentColor::Blue);
    let mut state = fresh();
    state.set_history(vec![
        HistoryRecord {
            id: 7,
            url: "u".to_string(),
            src: "s".to_string(),
            uploaded_at: "2026-01-01 00:00:00".to_string(),
        },
        HistoryRecord {
            id: 6,
            url: "v".to_string(),
            src: String::new(),
            uploaded_at: String::new(),
        },
    ]);
    let cards = state.history_cards(p, true);
    assert_eq!((cards[0].id, cards[1].id), (7, 6));
    assert_eq!(cards[0].badge.text, "已上传");
    assert_eq!(cards[0].badge.fill, Paint::Faded(apple_green(), 25));
    assert_eq!(cards[0].uploaded_at, "2026-01-01 00:00:00");
    assert_eq!(cards[0].lines.len(), 2);
    assert_eq!(cards[0].lines[1].text, "src: s");
    assert_eq!(cards[0].lines[1].color, p.muted);
    assert_eq!(cards[1].lines.len(), 1);
    assert_eq!(cards[1].url, "v");
}

#[test]
fn choices_and_switches_take_clicks() {
    let mut word = "POST".to_string();
    assert!(!choose_word(&mut word, "PUT", false));
    assert!(!choose_word(&mut word, "POST", true));
    assert!(choose_word(&mut word, "PUT", true));
    assert_eq!(word, "PUT");
    let mut on = false;
    assert!(!flip_switch(&mut on, false));
    assert!(!on);
    assert!(flip_switch(&mut on, true));
    assert!(on);
}
