use rust_clipboard_uploader::config::Config;
use rust_clipboard_uploader::events::{Action, AppEvent};
use rust_clipboard_uploader::response::UploadFailure;
use rust_clipboard_uploader::state::{AppState, AppTab, BottomTab};
use rust_clipboard_uploader::task::{
    answered, auto_retry_delay_seconds, do_upload_task, find_task, has_active, task_is_active, TaskStatus,
    UploadEvent,
};

const SECOND: u64 = 1_000_000_000;

fn fresh() -> AppState {
    AppState::start(Config::default(), vec![])
}

fn failed(message: &str, retryable: bool) -> TaskStatus {
    TaskStatus::Failed { message: message.to_string(), retryable }
}

fn success() -> TaskStatus {
    TaskStatus::Success("https://x/1".to_string(), "s".to_string())
}

fn started() -> AppState {
    let mut state = fresh();
    let job = state.trigger_upload(Some(vec![1, 2]), "10:00:00".to_string(), SECOND).unwrap();
    assert_eq!(job.task_id, 0);
    assert_eq!(job.image, vec![1, 2]);
    state
}

#[test]
fn a_request_starts_an_upload() {
    let mut state = fresh();
    state.last_url = Some("old".to_string());
    state.set_status_sticky(true, "old".to_string());
    let job = state.trigger_upload(Some(vec![9]), "10:00:00".to_string(), SECOND).unwrap();
    assert_eq!((job.task_id, job.image), (0, vec![9]));
    assert_eq!(state.tasks.len(), 1);
    assert_eq!(state.tasks[0].id, 0);
    assert!(matches!(state.tasks[0].status, TaskStatus::Uploading));
    assert_eq!(state.tasks[0].image_data, vec![9]);
    assert_eq!(state.tasks[0].created_at, "10:00:00");
    assert_eq!(state.tasks[0].data_expires_at, Some(301 * SECOND));
    assert_eq!(state.next_task_id, 1);
    assert_eq!(state.last_url, None);
    assert_eq!(state.status, None);
    assert_eq!(state.active_tab, AppTab::Activity);
    assert_eq!(state.bottom_tab, BottomTab::Tasks);
}

#[test]
fn a_request_without_an_image_says_so() {
    let mut state = fresh();
    assert!(state.trigger_upload(None, String::new(), 0).is_none());
    assert_eq!(state.status, Some((true, "剪贴板中未检测到图片".to_string())));
    assert_eq!(state.status_clear_at, None);
    assert_eq!(state.active_tab, AppTab::Overview);
}

#[test]
fn one_request_at_a_time() {
    let mut state = started();
    assert!(state.trigger_upload(Some(vec![3]), String::new(), 0).is_none());
    assert_eq!(state.tasks.len(), 1);
    assert!(state.on_event(AppEvent::TrayUpload, String::new(), 0).is_empty());
    state.on_progress(0, success(), 0);
    let actions = state.on_event(AppEvent::TrayUpload, String::new(), 0);
    assert!(matches!(actions[..], [Action::ReadForUpload]));
}

#[test]
fn the_watch_uploads_beside_others() {
    let mut state = started();
    let actions = state.on_event(AppEvent::WatchUpload(vec![7]), "11:00:00".to_string(), 0);
    match &actions[..] {
        [Action::Upload(job)] => {
            assert_eq!(job.task_id, 1);
            assert_eq!(job.image, vec![7]);
        }
        _ => panic!("one upload is started"),
    }
    assert_eq!(state.tasks.len(), 2);
    assert_eq!(state.tasks[1].created_at, "11:00:00");
}

#[test]
fn a_success_releases_the_image_and_is_made_known() {
    let mut state = started();
    let actions = state.on_progress(0, success(), 5 * SECOND);
    assert!(matches!(actions[..], [Action::ReloadHistory]));
    assert!(matches!(state.tasks[0].status, TaskStatus::Success(_, _)));
    assert!(state.tasks[0].image_data.is_empty());
    assert_eq!(state.last_url.as_deref(), Some("https://x/1"));
    assert_eq!(state.status, Some((false, "上传成功".to_string())));
    assert_eq!(state.status_clear_at, Some(8 * SECOND));
}

#[test]
fn a_success_is_copied_and_notified_where_asked() {
    let mut state = started();
    state.config.copy_to_clipboard = Some(true);
    state.config.notify_on_success = Some(true);
    let actions = state.on_progress(0, success(), 0);
    match &actions[..] {
        [Action::CopyText(text), Action::Notify(title, body), Action::ReloadHistory] => {
            assert_eq!(text, "https://x/1");
            assert_eq!(title, "上传成功");
            assert_eq!(body, "https://x/1");
        }
        _ => panic!("copy, notify and reload"),
    }
    assert_eq!(state.status, Some((false, "上传成功，链接已复制".to_string())));
}

#[test]
fn a_success_of_a_removed_task_is_still_made_known() {
    let mut state = fresh();
    state.on_progress(42, success(), 0);
    assert!(state.tasks.is_empty());
    assert_eq!(state.last_url.as_deref(), Some("https://x/1"));
}

#[test]
fn processing_releases_the_image() {
    let mut state = started();
    assert!(state.on_progress(0, TaskStatus::Processing, 0).is_empty());
    assert!(matches!(state.tasks[0].status, TaskStatus::Processing));
    assert!(state.tasks[0].image_data.is_empty());
    assert!(state.on_progress(0, TaskStatus::Uploading, 0).is_empty());
    assert!(matches!(state.tasks[0].status, TaskStatus::Uploading));
}

#[test]
fn a_passing_failure_is_tried_again_twice() {
    let mut state = started();
    let actions = state.on_progress(0, failed("first", true), 10 * SECOND);
    assert!(matches!(actions[..], [Action::RetryAfter(0, 2)]));
    match &state.tasks[0].status {
        TaskStatus::Retrying { message, attempt, max_retries, wait_seconds } => {
            assert_eq!(message, "first");
            assert_eq!((*attempt, *max_retries, *wait_seconds), (1, 2, 2));
        }
        _ => panic!("the task waits"),
    }
    assert_eq!(state.status, Some((true, "上传失败，2 秒后自动重试（1/2）".to_string())));
    assert_eq!(state.status_clear_at, None);
    assert_eq!(state.tasks[0].data_expires_at, Some(310 * SECOND));

    let actions = state.on_event(AppEvent::RetryTask(0), String::new(), 12 * SECOND);
    assert!(matches!(actions[..], [Action::Upload(_)]));
    assert!(matches!(state.tasks[0].status, TaskStatus::Uploading));
    assert_eq!(state.tasks[0].retry_count, 1);
    assert_eq!(state.status, None);

    let actions = state.on_progress(0, failed("second", true), 13 * SECOND);
    assert!(matches!(actions[..], [Action::RetryAfter(0, 5)]));
    assert_eq!(state.status, Some((true, "上传失败，5 秒后自动重试（2/2）".to_string())));
    state.on_event(AppEvent::RetryTask(0), String::new(), 18 * SECOND);
    assert_eq!(state.tasks[0].retry_count, 2);

    assert!(state.on_progress(0, failed("third", true), 19 * SECOND).is_empty());
    assert!(matches!(state.tasks[0].status, TaskStatus::Failed { retryable: true, .. }));
    assert_eq!(state.status, Some((true, "third".to_string())));
}

#[test]
fn other_failures_are_not_tried_again() {
    let mut state = started();
    assert!(state.on_progress(0, failed("no", false), 0).is_empty());
    assert!(matches!(state.tasks[0].status, TaskStatus::Failed { retryable: false, .. }));
    assert_eq!(state.tasks[0].image_data, vec![1, 2]);
    let mut state = started();
    state.config.auto_retry = Some(false);
    assert!(state.on_progress(0, failed("no", true), 0).is_empty());
    assert_eq!(state.status, Some((true, "no".to_string())));
}

#[test]
fn a_failure_of_an_unknown_task_only_says_so() {
    let mut state = fresh();
    assert!(state.on_progress(3, failed("lost", true), 0).is_empty());
    assert_eq!(state.status, Some((true, "lost".to_string())));
}

#[test]
fn a_retry_reads_the_clipboard_where_it_has_no_image() {
    let mut state = started();
    state.on_progress(0, TaskStatus::Processing, 0);
    state.on_progress(0, failed("late", true), 0);
    let actions = state.on_event(AppEvent::RetryTask(0), String::new(), 0);
    assert!(matches!(actions[..], [Action::ReadForRetry(0)]));
    assert!(matches!(state.tasks[0].status, TaskStatus::Retrying { .. }));
    assert!(state.retry_task_auto(0, None, 0).is_none());
    assert_eq!(state.status, Some((true, "剪贴板中未检测到图片，无法重试".to_string())));
    let job = state.retry_task_auto(0, Some(vec![4]), 0).unwrap();
    assert_eq!((job.task_id, job.image), (0, vec![4]));
    assert_eq!(state.tasks[0].image_data, vec![4]);
    assert_eq!(state.tasks[0].retry_count, 1);
}

#[test]
fn a_retry_by_hand_starts_all_over() {
    let mut state = started();
    state.tasks[0].retry_count = 2;
    state.on_progress(0, failed("no", false), 0);
    assert!(!state.retry_needs_clipboard(0));
    let job = state.retry_task(0, None, 0).unwrap();
    assert_eq!(job.image, vec![1, 2]);
    assert_eq!(state.tasks[0].retry_count, 0);
    assert!(matches!(state.tasks[0].status, TaskStatus::Uploading));
    assert!(state.retry_task(9, Some(vec![1]), 0).is_none());
    assert!(!state.retry_needs_clipboard(9));
}

#[test]
fn the_count_of_retries_does_not_overflow() {
    let mut state = started();
    state.tasks[0].retry_count = 255;
    state.start_retry_task(0, false, None, 0);
    assert_eq!(state.tasks[0].retry_count, 255);
}

#[test]
fn waits_grow() {
    let waits: Vec<u64> = (0..5).map(auto_retry_delay_seconds).collect();
    assert_eq!(waits, vec![8, 2, 5, 8, 8]);
}

#[test]
fn stages_that_are_under_way() {
    assert!(task_is_active(&TaskStatus::Uploading));
    assert!(task_is_active(&TaskStatus::Processing));
    assert!(task_is_active(&TaskStatus::Retrying {
        message: String::new(),
        attempt: 1,
        max_retries: 2,
        wait_seconds: 2,
    }));
    assert!(!task_is_active(&success()));
    assert!(!task_is_active(&failed("x", true)));
    let state = started();
    assert!(has_active(&state.tasks));
    assert_eq!(find_task(&state.tasks, 0), Some(0));
    assert_eq!(find_task(&state.tasks, 1), None);
}

#[test]
fn what_happens_on_the_way() {
    let cfg = Config::default();
    let step = do_upload_task(&cfg, UploadEvent::BuildFailed("bad".to_string()));
    assert!(step.over);
    assert_eq!(step.record, None);
    match step.status {
        TaskStatus::Failed { message, retryable } => {
            assert_eq!(message, "构建请求失败: bad");
            assert!(!retryable);
        }
        _ => panic!("a failure"),
    }
    match do_upload_task(&cfg, UploadEvent::SendFailed("timeout".to_string(), false)).status {
        TaskStatus::Failed { message, retryable } => {
            assert_eq!(message, "发送请求失败: timeout");
            assert!(retryable);
        }
        _ => panic!("a failure"),
    }
    let step = do_upload_task(&cfg, UploadEvent::Sent);
    assert!(!step.over);
    assert!(matches!(step.status, TaskStatus::Processing));
    let step = do_upload_task(&cfg, UploadEvent::Answered(201, " link\n".to_string()));
    assert!(step.over);
    assert_eq!(step.record, Some(("link".to_string(), String::new())));
    match step.status {
        TaskStatus::Success(url, src) => {
            assert_eq!((url.as_str(), src.as_str()), ("link", ""));
        }
        _ => panic!("a success"),
    }
    match do_upload_task(&cfg, UploadEvent::Answered(503, "down".to_string())).status {
        TaskStatus::Failed { message, retryable } => {
            assert_eq!(message, "上传失败: 请求失败: 503 Service Unavailable — down");
            assert!(retryable);
        }
        _ => panic!("a failure"),
    }
    match do_upload_task(&cfg, UploadEvent::Answered(403, "no".to_string())).status {
        TaskStatus::Failed { message, retryable } => {
            assert_eq!(message, "上传失败: 请求失败: 403 Forbidden — no");
            assert!(!retryable);
        }
        _ => panic!("a failure"),
    }
}

#[test]
fn the_tray_moves_the_state() {
    let mut state = fresh();
    assert!(matches!(
        state.on_event(AppEvent::TrayShowWindow, String::new(), 0)[..],
        [Action::ShowWindow]
    ));
    state.config.auto_watch = None;
    assert!(matches!(
        state.on_event(AppEvent::TrayToggleWatch, String::new(), 0)[..],
        [Action::ShareConfig]
    ));
    assert_eq!(state.config.auto_watch, Some(true));
    assert!(state.watch_active);
    state.on_event(AppEvent::TrayToggleWatch, String::new(), 0);
    assert_eq!(state.config.auto_watch, Some(false));
    assert!(!state.watch_active);
    match &state.on_event(AppEvent::TrayCopyUrl("u".to_string()), String::new(), 0)[..] {
        [Action::CopyTrayLink(url)] => assert_eq!(url, "u"),
        _ => panic!("the link is copied"),
    }
    assert!(state.on_event(AppEvent::TrayQuit, String::new(), 0).is_empty());
    assert!(state.quit_requested);
}

#[test]
fn an_answer_ends_the_upload() {
    let step = answered(Ok(("u".to_string(), "s".to_string())));
    assert!(step.over);
    assert_eq!(step.record, Some(("u".to_string(), "s".to_string())));
    let step = answered(Err(UploadFailure { message: "m".to_string(), retryable: true }));
    assert!(step.over);
    assert_eq!(step.record, None);
    match step.status {
        TaskStatus::Failed { message, retryable } => {
            assert_eq!(message, "上传失败: m");
            assert!(retryable);
        }
        _ => panic!("a failure"),
    }
}

#[test]
fn a_request_at_fault_is_not_tried_again() {
    let mut cfg = Config::default();
    cfg.upload_url = "not a url".to_string();
    let error = reqwest::blocking::Client::new().post(&cfg.upload_url).send().unwrap_err();
    assert!(error.is_builder());
    let event = UploadEvent::SendFailed(error.to_string(), error.is_builder());
    let step = do_upload_task(&cfg, event);
    assert!(step.over);
    assert_eq!(step.record, None);
    assert!(matches!(step.status, TaskStatus::Failed { retryable: false, .. }));
    let mut state = started();
    assert!(state.on_progress(0, step.status, 0).is_empty());
    assert!(matches!(state.tasks[0].status, TaskStatus::Failed { .. }));
}

#[test]
fn an_answer_without_a_link_can_be_tried_again_by_hand() {
    let mut cfg = Config::default();
    cfg.response = Some("json.url".to_string());
    let step = do_upload_task(&cfg, UploadEvent::Answered(200, "not json".to_string()));
    assert!(step.over);
    assert_eq!(step.record, None);
    let mut state = started();
    assert!(state.on_progress(0, step.status, 0).is_empty());
    assert_eq!(
        state.status,
        Some((true, "上传失败: 响应解析失败: json.url — not json".to_string()))
    );
    assert_eq!(state.last_url, None);
    assert!(state.retry_task(0, None, 0).is_some());
}
