use rust_clipboard_uploader::config::Config;
use rust_clipboard_uploader::events::AppEvent;
use rust_clipboard_uploader::state::{AppState, HistoryRecord};
use rust_clipboard_uploader::tray::{
    build_tray_icon_rgba, build_tray_menu, link_can_be_shown, link_label, menu_event, TrayEntry,
    TrayIds,
};

fn record(id: i64, url: &str) -> HistoryRecord {
    HistoryRecord {
        id,
        url: url.to_string(),
        src: String::new(),
        uploaded_at: String::new(),
    }
}

fn ids() -> TrayIds {
    TrayIds {
        show: "1".to_string(),
        upload: "2".to_string(),
        watch: "3".to_string(),
        quit: "4".to_string(),
    }
}

#[test]
fn the_icon_is_drawn() {
    let (bytes, w, h) = build_tray_icon_rgba();
    assert_eq!((w, h), (22, 22));
    assert_eq!(bytes.len(), 22 * 22 * 4);
    let lit = |x: usize, y: usize| -> [u8; 4] {
        let k = (y * 22 + x) * 4;
        [bytes[k], bytes[k + 1], bytes[k + 2], bytes[k + 3]]
    };
    assert_eq!(lit(10, 2), [255; 4]);
    assert_eq!(lit(11, 8), [255; 4]);
    assert_eq!(lit(9, 2), [0; 4]);
    assert_eq!(lit(4, 17), [255; 4]);
    assert_eq!(lit(17, 17), [255; 4]);
    assert_eq!(lit(18, 17), [0; 4]);
    assert_eq!(lit(21, 21), [0; 4]);
    let drawn = bytes.chunks(4).filter(|p| p[3] == 255).count();
    assert_eq!(drawn, 2 + 4 + 4 + 4 + 3 * 2 + 6 + 8 + 6 * 4 + 14 + 12);
}

#[test]
fn the_menu_is_laid_out() {
    let menu = build_tray_menu(true);
    assert_eq!(menu.len(), 10);
    assert!(matches!(menu[0], TrayEntry::Upload("从剪贴板上传")));
    assert!(matches!(menu[1], TrayEntry::Separator));
    assert!(matches!(menu[2], TrayEntry::Watch("自动监听剪贴板", true)));
    assert!(matches!(menu[4], TrayEntry::Recent("最近上传", "暂无记录")));
    assert!(matches!(menu[6], TrayEntry::Status("状态: 空闲")));
    assert!(matches!(menu[8], TrayEntry::Show("打开设置窗口")));
    assert!(matches!(menu[9], TrayEntry::Quit("退出")));
    assert!(matches!(build_tray_menu(false)[2], TrayEntry::Watch(_, false)));
}

#[test]
fn entries_mean_events() {
    let recent: Vec<String> = vec!["a".to_string(), "b".to_string()];
    assert!(matches!(menu_event("1", &ids(), &recent), Some(AppEvent::TrayShowWindow)));
    assert!(matches!(menu_event("2", &ids(), &recent), Some(AppEvent::TrayUpload)));
    assert!(matches!(menu_event("3", &ids(), &recent), Some(AppEvent::TrayToggleWatch)));
    assert!(matches!(menu_event("4", &ids(), &recent), Some(AppEvent::TrayQuit)));
    match menu_event("recent_url_1", &ids(), &recent) {
        Some(AppEvent::TrayCopyUrl(url)) => assert_eq!(url, "b"),
        _ => panic!("the link is copied"),
    }
    assert!(menu_event("recent_url_2", &ids(), &recent).is_none());
    assert!(menu_event("recent_url_", &ids(), &recent).is_none());
    assert!(menu_event("recent_url_x", &ids(), &recent).is_none());
    assert!(menu_event("5", &ids(), &recent).is_none());
}

#[test]
fn long_links_are_cut() {
    let fifty = "x".repeat(50);
    assert_eq!(link_label(&fifty), fifty);
    let long = "y".repeat(51);
    assert_eq!(link_label(&long), format!("{}...", "y".repeat(47)));
    let wide = format!("{}é{}", "z".repeat(46), "z".repeat(10));
    assert!(!link_can_be_shown(&wide));
    let aligned = format!("{}é{}", "z".repeat(45), "z".repeat(10));
    assert!(link_can_be_shown(&aligned));
    assert_eq!(link_label(&aligned), format!("{}é...", "z".repeat(45)));
}

#[test]
fn the_menu_follows_the_state() {
    let history: Vec<HistoryRecord> = (0..7).map(|i| record(i, &format!("u{}", i))).collect();
    let mut state = AppState::start(Config::default(), history);
    let none: Vec<String> = vec![];
    assert!(state.tray_can_sync(&none));
    let sync = state.sync_tray_menu(&none);
    assert!(!sync.watch);
    assert_eq!(sync.status_text, "状态: 空闲");
    assert!(sync.upload_enabled);
    assert_eq!(sync.upload_text, "从剪贴板上传");
    let (urls, items) = sync.rebuild.unwrap();
    assert_eq!(urls, vec!["u0", "u1", "u2", "u3", "u4"]);
    let shown: Vec<String> = items.iter().map(|i| i.label.clone()).collect();
    assert_eq!(items[4].id, "recent_url_4");
    assert_eq!(shown, urls);
    assert!(state.sync_tray_menu(&shown).rebuild.is_none());

    state.config.auto_watch = Some(true);
    state.set_status_sticky(false, "fine".to_string());
    let sync = state.sync_tray_menu(&shown);
    assert!(sync.watch);
    assert_eq!(sync.status_text, "状态: fine");
    state.on_event(AppEvent::WatchUpload(vec![1]), String::new(), 0);
    let sync = state.sync_tray_menu(&shown);
    assert_eq!(sync.status_text, "状态: 上传中...");
    assert!(!sync.upload_enabled);
    assert_eq!(sync.upload_text, "上传中...");
}

#[test]
fn a_chosen_link_is_the_one_shown() {
    let history = vec![record(1, "first"), record(2, "second")];
    let state = AppState::start(Config::default(), history);
    let (urls, items) = state.sync_tray_menu(&vec![]).rebuild.unwrap();
    for (i, item) in items.iter().enumerate() {
        match menu_event(&item.id, &ids(), &urls) {
            Some(AppEvent::TrayCopyUrl(url)) => assert_eq!(url, state.history[i].url),
            _ => panic!("the link is copied"),
        }
    }
}

#[test]
fn an_empty_history_needs_no_rebuilding() {
    let state = AppState::start(Config::default(), vec![]);
    assert!(state.sync_tray_menu(&vec![]).rebuild.is_none());
    let (urls, items) = state.sync_tray_menu(&vec!["old".to_string()]).rebuild.unwrap();
    assert!(urls.is_empty() && items.is_empty());
}

#[test]
fn links_that_cannot_be_cut_are_found() {
    let wide = format!("{}é{}", "z".repeat(46), "z".repeat(10));
    let state = AppState::start(Config::default(), vec![record(1, &wide)]);
    assert!(!state.tray_can_sync(&vec![]));
    assert!(state.tray_can_sync(&vec![wide.clone()]));
    assert!(state.sync_tray_menu(&vec![wide]).rebuild.is_none());
}
