//! What reaches the program from outside, and what it does about it.
use vstd::prelude::*;

use crate::config::{copy_enabled, flag_or, notify_enabled, watch_enabled, ConfigView};
use crate::state::{
    at_tasks, clock_in_range, needs_clipboard, next_attempt, passing, retried, retries_itself,
    retry_job, scheduled, spawned, sticky, AppState, AppTab, BottomTab, StateView, UploadJob,
};
use crate::task::{
    find_task, has_active, retry_delay, some_active, task_index, StatusView, TaskStatus, TaskView,
};

verus! {

/// What reaches the program from outside.
#[derive(Debug)]
pub enum AppEvent {
    /// An upload has come this far.
    TaskProgress(usize, TaskStatus),
    /// The watch has found a new image.
    WatchUpload(Vec<u8>),
    /// The wait before an automatic retry is over.
    RetryTask(usize),
    /// The tray asks to show the window.
    TrayShowWindow,
    /// The tray, or the shortcut, asks for an upload.
    TrayUpload,
    /// The tray switches the watch on or off.
    TrayToggleWatch,
    /// The tray asks to quit.
    TrayQuit,
    /// The tray asks to copy a link.
    TrayCopyUrl(String),
}

/// The model of an [`AppEvent`].
pub enum EventView {
    TaskProgress(usize, StatusView),
    WatchUpload(Seq<u8>),
    RetryTask(usize),
    TrayShowWindow,
    TrayUpload,
    TrayToggleWatch,
    TrayQuit,
    TrayCopyUrl(Seq<char>),
}

impl View for AppEvent {
    type V = EventView;

    open spec fn view(&self) -> EventView {
        match *self {
            AppEvent::TaskProgress(id, status) => EventView::TaskProgress(id, status@),
            AppEvent::WatchUpload(img) => EventView::WatchUpload(img@),
            AppEvent::RetryTask(id) => EventView::RetryTask(id),
            AppEvent::TrayShowWindow => EventView::TrayShowWindow,
            AppEvent::TrayUpload => EventView::TrayUpload,
            AppEvent::TrayToggleWatch => EventView::TrayToggleWatch,
            AppEvent::TrayQuit => EventView::TrayQuit,
            AppEvent::TrayCopyUrl(url) => EventView::TrayCopyUrl(url@),
        }
    }
}

/// What the program does about an event, besides moving its state.
pub enum Action {
    /// Start an upload.
    Upload(UploadJob),
    /// Wait that many seconds, then send [`AppEvent::RetryTask`] for the task.
    RetryAfter(usize, u64),
    /// Copy a text, whatever comes of it.
    CopyText(String),
    /// Copy a link from the tray and report with [`AppState::copy_finished`].
    CopyTrayLink(String),
    /// Show a notification with a title and a text.
    Notify(String, String),
    /// Read the history again.
    ReloadHistory,
    /// Read the clipboard for [`AppState::trigger_upload`].
    ReadForUpload,
    /// Read the clipboard for an automatic retry of the task.
    ReadForRetry(usize),
    /// Show the window.
    ShowWindow,
    /// Give the settings to the watch.
    ShareConfig,
}

/// The model of an [`Action`].
pub enum ActionView {
    Upload(usize, Seq<u8>),
    RetryAfter(usize, u64),
    CopyText(Seq<char>),
    CopyTrayLink(Seq<char>),
    Notify(Seq<char>, Seq<char>),
    ReloadHistory,
    ReadForUpload,
    ReadForRetry(usize),
    ShowWindow,
    ShareConfig,
}

impl View for Action {
    type V = ActionView;

    open spec fn view(&self) -> ActionView {
        match *self {
            Action::Upload(job) => ActionView::Upload(job.task_id, job.image@),
            Action::RetryAfter(id, secs) => ActionView::RetryAfter(id, secs),
            Action::CopyText(t) => ActionView::CopyText(t@),
            Action::CopyTrayLink(t) => ActionView::CopyTrayLink(t@),
            Action::Notify(title, body) => ActionView::Notify(title@, body@),
            Action::ReloadHistory => ActionView::ReloadHistory,
            Action::ReadForUpload => ActionView::ReadForUpload,
            Action::ReadForRetry(id) => ActionView::ReadForRetry(id),
            Action::ShowWindow => ActionView::ShowWindow,
            Action::ShareConfig => ActionView::ShareConfig,
        }
    }
}

/// The models of a list of actions.
pub open spec fn action_models(v: Seq<Action>) -> Seq<ActionView> {
    Seq::new(v.len(), |i: int| v[i]@)
}

/// The tasks with the first one of that number replaced.
pub open spec fn replaced(
    tasks: Seq<TaskView>,
    id: usize,
    change: spec_fn(TaskView) -> TaskView,
) -> Seq<TaskView> {
    match task_index(tasks, id) {
        Some(i) => tasks.update(i, change(tasks[i])),
        None => tasks,
    }
}

/// What is said of a success.
pub open spec fn success_message(copies: bool) -> Seq<char> {
    if copies {
        "上传成功，链接已复制"@
    } else {
        "上传成功"@
    }
}

/// The state after an upload has come this far.
pub open spec fn progressed(s: StateView, id: usize, status: StatusView, now: u64) -> StateView {
    match status {
        StatusView::Success(url, src) => passing(
            StateView {
                tasks: replaced(
                    s.tasks,
                    id,
                    |t: TaskView| TaskView {
                        status,
                        image_data: Seq::empty(),
                        retry_count: 0,
                        ..t
                    },
                ),
                last_url: Some(url),
                ..s
            },
            now,
            false,
            success_message(flag_or(s.config.copy_to_clipboard, false)),
        ),
        StatusView::Failed { message, retryable } => if retryable && retries_itself(s, id) {
            scheduled(s, id, message, now)
        } else {
            sticky(
                StateView {
                    tasks: replaced(s.tasks, id, |t: TaskView| TaskView { status, ..t }),
                    ..s
                },
                true,
                message,
            )
        },
        StatusView::Uploading => StateView {
            tasks: replaced(s.tasks, id, |t: TaskView| TaskView { status, ..t }),
            ..s
        },
        StatusView::Processing => StateView {
            tasks: replaced(
                s.tasks,
                id,
                |t: TaskView| TaskView { status, image_data: Seq::empty(), ..t },
            ),
            ..s
        },
        StatusView::Retrying { .. } => s,
    }
}

/// What is done when an upload has come this far.
pub open spec fn progress_actions(s: StateView, id: usize, status: StatusView) -> Seq<ActionView> {
    match status {
        StatusView::Success(url, _) => (if flag_or(s.config.copy_to_clipboard, false) {
            seq![ActionView::CopyText(url)]
        } else {
            seq![]
        }) + (if flag_or(s.config.notify_on_success, false) {
            seq![ActionView::Notify("上传成功"@, url)]
        } else {
            seq![]
        }) + seq![ActionView::ReloadHistory],
        StatusView::Failed { retryable, .. } => if retryable && retries_itself(s, id) {
            seq![ActionView::RetryAfter(id, retry_delay(next_attempt(s, id)))]
        } else {
            seq![]
        },
        _ => seq![],
    }
}

/// The upload of a job, if there is one.
pub open spec fn upload_action(job: Option<(usize, Seq<u8>)>) -> Seq<ActionView> {
    match job {
        Some((id, img)) => seq![ActionView::Upload(id, img)],
        None => seq![],
    }
}

/// The settings with the watch switched.
pub open spec fn watch_switched(s: StateView) -> StateView {
    let on = !flag_or(s.config.auto_watch, false);
    StateView {
        config: ConfigView { auto_watch: Some(on), ..s.config },
        watch_active: on,
        ..s
    }
}

/// The state after an event.
pub open spec fn after_event(
    s: StateView,
    event: EventView,
    created_at: Seq<char>,
    now: u64,
) -> StateView {
    match event {
        EventView::TaskProgress(id, status) => progressed(s, id, status, now),
        EventView::WatchUpload(img) => spawned(at_tasks(s), img, created_at, now),
        EventView::RetryTask(id) => if needs_clipboard(s, id) {
            s
        } else {
            retried(s, id, false, None, now)
        },
        EventView::TrayToggleWatch => watch_switched(s),
        EventView::TrayQuit => StateView { quit_requested: true, ..s },
        EventView::TrayShowWindow | EventView::TrayUpload | EventView::TrayCopyUrl(_) => s,
    }
}

/// What is done about an event.
pub open spec fn event_actions(s: StateView, event: EventView) -> Seq<ActionView> {
    match event {
        EventView::TaskProgress(id, status) => progress_actions(s, id, status),
        EventView::WatchUpload(img) => seq![ActionView::Upload(s.next_task_id, img)],
        EventView::RetryTask(id) => if needs_clipboard(s, id) {
            seq![ActionView::ReadForRetry(id)]
        } else {
            upload_action(retry_job(s, id, None))
        },
        EventView::TrayShowWindow => seq![ActionView::ShowWindow],
        EventView::TrayUpload => if some_active(s.tasks) {
            seq![]
        } else {
            seq![ActionView::ReadForUpload]
        },
        EventView::TrayToggleWatch => seq![ActionView::ShareConfig],
        EventView::TrayQuit => seq![],
        EventView::TrayCopyUrl(url) => seq![ActionView::CopyTrayLink(url)],
    }
}

impl AppState {
    /// Moves on when an upload has come this far.
    pub fn on_progress(&mut self, task_id: usize, status: TaskStatus, now: u64) -> (actions: Vec<
        Action,
    >)
        requires
            clock_in_range(now),
        ensures
            final(self)@ == progressed(old(self)@, task_id, status@, now),
            action_models(actions@) == progress_actions(old(self)@, task_id, status@),
    {
        let mut actions: Vec<Action> = Vec::new();
        match status {
            TaskStatus::Success(url, src) => {
                let last = url.clone();
                let copied = url.clone();
                let shown = url.clone();
                if let Some(i) = find_task(&self.tasks, task_id) {
                    self.tasks[i].status = TaskStatus::Success(url, src);
                    self.tasks[i].image_data = Vec::new();
                    self.tasks[i].retry_count = 0;
                }
                self.last_url = Some(last);
                let copies = copy_enabled(&self.config);
                if copies {
                    actions.push(Action::CopyText(copied));
                }
                if notify_enabled(&self.config) {
                    actions.push(Action::Notify("上传成功".to_owned(), shown));
                }
                actions.push(Action::ReloadHistory);
                let msg = if copies {
                    "上传成功，链接已复制".to_owned()
                } else {
                    "上传成功".to_owned()
                };
                self.set_status_auto_clear(false, msg, now);
            },
            TaskStatus::Failed { message, retryable } => {
                let wait: Option<u64> = if retryable {
                    self.schedule_auto_retry(task_id, message.as_str(), now)
                } else {
                    None
                };
                match wait {
                    Some(seconds) => {
                        actions.push(Action::RetryAfter(task_id, seconds));
                    },
                    None => {
                        let shown = message.clone();
                        if let Some(i) = find_task(&self.tasks, task_id) {
                            self.tasks[i].status = TaskStatus::Failed { message, retryable };
                        }
                        self.set_status_sticky(true, shown);
                    },
                }
            },
            TaskStatus::Uploading => {
                if let Some(i) = find_task(&self.tasks, task_id) {
                    self.tasks[i].status = TaskStatus::Uploading;
                }
            },
            TaskStatus::Processing => {
                if let Some(i) = find_task(&self.tasks, task_id) {
                    self.tasks[i].status = TaskStatus::Processing;
                    self.tasks[i].image_data = Vec::new();
                }
            },
            TaskStatus::Retrying { .. } => {},
        }
        assert(self@ =~= progressed(old(self)@, task_id, status@, now));
        assert(action_models(actions@) =~= progress_actions(old(self)@, task_id, status@));
        actions
    }

    /// Moves on by an event, and gives what is to be done about it.
    pub fn on_event(&mut self, event: AppEvent, created_at: String, now: u64) -> (actions: Vec<
        Action,
    >)
        requires
            clock_in_range(now),
            event is WatchUpload ==> old(self).next_task_id < usize::MAX,
        ensures
            final(self)@ == after_event(old(self)@, event@, created_at@, now),
            action_models(actions@) == event_actions(old(self)@, event@),
    {
        let mut actions: Vec<Action> = Vec::new();
        match event {
            AppEvent::TaskProgress(task_id, status) => {
                actions = self.on_progress(task_id, status, now);
            },
            AppEvent::WatchUpload(img) => {
                self.active_tab = AppTab::Activity;
                self.bottom_tab = BottomTab::Tasks;
                actions.push(Action::Upload(self.spawn_task(img, created_at, now)));
            },
            AppEvent::RetryTask(task_id) => {
                if self.retry_needs_clipboard(task_id) {
                    actions.push(Action::ReadForRetry(task_id));
                } else {
                    if let Some(job) = self.retry_task_auto(task_id, None, now) {
                        actions.push(Action::Upload(job));
                    }
                }
            },
            AppEvent::TrayShowWindow => {
                actions.push(Action::ShowWindow);
            },
            AppEvent::TrayUpload => {
                if !has_active(&self.tasks) {
                    actions.push(Action::ReadForUpload);
                }
            },
            AppEvent::TrayToggleWatch => {
                let on = !watch_enabled(&self.config);
                self.config.auto_watch = Some(on);
                self.watch_active = on;
                actions.push(Action::ShareConfig);
            },
            AppEvent::TrayQuit => {
                self.quit_requested = true;
            },
            AppEvent::TrayCopyUrl(url) => {
                actions.push(Action::CopyTrayLink(url));
            },
        }
        assert(self@ =~= after_event(old(self)@, event@, created_at@, now));
        assert(action_models(actions@) =~= event_actions(old(self)@, event@));
        actions
    }
}

} // verus!
