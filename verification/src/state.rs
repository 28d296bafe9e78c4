//! The state of the program and how it moves.
use vstd::prelude::*;

use crate::config::{auto_retry_enabled, flag_or, maybe_text, Config, ConfigView};
use crate::digits::{decimal, decimal_text};
use crate::task::{
    auto_retry_delay_seconds, find_task, has_active, retry_delay, some_active, task_index,
    task_models, StatusView, TaskStatus, TaskView, UploadTask, AUTO_RETRY_MAX_RETRIES,
    DATA_KEPT_NANOS,
};

verus! {

/// The pages of the window.
#[derive(Debug, Clone, Copy, PartialEq, Eq, Structural)]
pub enum AppTab {
    Overview,
    Upload,
    Activity,
    Settings,
}

impl AppTab {
    /// What the page is called on the screen.
    pub fn label(self) -> (r: &'static str)
        ensures
            r@ == (match self {
                AppTab::Overview => "概览"@,
                AppTab::Upload => "上传"@,
                AppTab::Activity => "活动"@,
                AppTab::Settings => "设置"@,
            }),
    {
        match self {
            AppTab::Overview => "概览",
            AppTab::Upload => "上传",
            AppTab::Activity => "活动",
            AppTab::Settings => "设置",
        }
    }
}

/// The parts of the settings page.
#[derive(Debug, Clone, Copy, PartialEq, Eq, Structural)]
pub enum SettingsTab {
    Config,
    Appearance,
}

impl SettingsTab {
    /// What the part is called on the screen.
    pub fn label(self) -> (r: &'static str)
        ensures
            r@ == (match self {
                SettingsTab::Config => "配置"@,
                SettingsTab::Appearance => "外观"@,
            }),
    {
        match self {
            SettingsTab::Config => "配置",
            SettingsTab::Appearance => "外观",
        }
    }
}

/// The lists of the activity page.
#[derive(Debug, Clone, Copy, PartialEq, Eq, Structural)]
pub enum BottomTab {
    Tasks,
    History,
}

/// An upload that succeeded earlier.
#[derive(Debug)]
pub struct HistoryRecord {
    pub id: i64,
    pub url: String,
    pub src: String,
    pub uploaded_at: String,
}

/// The model of a [`HistoryRecord`].
pub struct RecordView {
    pub id: i64,
    pub url: Seq<char>,
    pub src: Seq<char>,
    pub uploaded_at: Seq<char>,
}

impl View for HistoryRecord {
    type V = RecordView;

    open spec fn view(&self) -> RecordView {
        RecordView {
            id: self.id,
            url: self.url@,
            src: self.src@,
            uploaded_at: self.uploaded_at@,
        }
    }
}

impl Clone for HistoryRecord {
    fn clone(&self) -> (r: Self)
        ensures
            r@ == self@,
    {
        HistoryRecord {
            id: self.id,
            url: self.url.clone(),
            src: self.src.clone(),
            uploaded_at: self.uploaded_at.clone(),
        }
    }
}

/// The models of a list of records.
pub open spec fn record_models(records: Seq<HistoryRecord>) -> Seq<RecordView> {
    Seq::new(records.len(), |i: int| records[i]@)
}

/// The state of the program. Moments are in nanoseconds since its start.
pub struct AppState {
    pub config: Config,
    pub last_url: Option<String>,
    /// The message on the screen, and whether it tells of an error.
    pub status: Option<(bool, String)>,
    /// The moment from which the message is gone.
    pub status_clear_at: Option<u64>,
    pub watch_active: bool,
    pub quit_requested: bool,
    pub history: Vec<HistoryRecord>,
    pub tasks: Vec<UploadTask>,
    pub next_task_id: usize,
    pub active_tab: AppTab,
    pub settings_tab: SettingsTab,
    pub bottom_tab: BottomTab,
    pub config_dirty: bool,
}

/// The model of an [`AppState`].
#[verifier::ext_equal]
pub struct StateView {
    pub config: ConfigView,
    pub last_url: Option<Seq<char>>,
    pub status: Option<(bool, Seq<char>)>,
    pub status_clear_at: Option<u64>,
    pub watch_active: bool,
    pub quit_requested: bool,
    pub history: Seq<RecordView>,
    pub tasks: Seq<TaskView>,
    pub next_task_id: usize,
    pub active_tab: AppTab,
    pub settings_tab: SettingsTab,
    pub bottom_tab: BottomTab,
    pub config_dirty: bool,
}

impl View for AppState {
    type V = StateView;

    open spec fn view(&self) -> StateView {
        StateView {
            config: self.config@,
            last_url: maybe_text(self.last_url),
            status: match self.status {
                Some((is_err, msg)) => Some((is_err, msg@)),
                None => None,
            },
            status_clear_at: self.status_clear_at,
            watch_active: self.watch_active,
            quit_requested: self.quit_requested,
            history: record_models(self.history@),
            tasks: task_models(self.tasks@),
            next_task_id: self.next_task_id,
            active_tab: self.active_tab,
            settings_tab: self.settings_tab,
            bottom_tab: self.bottom_tab,
            config_dirty: self.config_dirty,
        }
    }
}

/// How long a passing message stays, in nanoseconds.
pub const STATUS_KEPT_NANOS: u64 = 3_000_000_000;

/// Whether every moment that is computed from this one can be told.
pub open spec fn clock_in_range(now: u64) -> bool {
    now <= u64::MAX - DATA_KEPT_NANOS
}

/// The state with a message that passes by itself.
pub open spec fn passing(s: StateView, now: u64, is_err: bool, msg: Seq<char>) -> StateView {
    StateView {
        status: Some((is_err, msg)),
        status_clear_at: Some((now + STATUS_KEPT_NANOS) as u64),
        ..s
    }
}

/// The state with a message that stays.
pub open spec fn sticky(s: StateView, is_err: bool, msg: Seq<char>) -> StateView {
    StateView { status: Some((is_err, msg)), status_clear_at: None, ..s }
}

/// The state without a message.
pub open spec fn silent(s: StateView) -> StateView {
    StateView { status: None, status_clear_at: None, ..s }
}

/// The state with a new task that uploads an image.
pub open spec fn spawned(
    s: StateView,
    img: Seq<u8>,
    created_at: Seq<char>,
    now: u64,
) -> StateView {
    StateView {
        tasks: s.tasks.push(
            TaskView {
                id: s.next_task_id,
                status: StatusView::Uploading,
                image_data: img,
                created_at,
                data_expires_at: Some((now + DATA_KEPT_NANOS) as u64),
                retry_count: 0,
            },
        ),
        next_task_id: (s.next_task_id + 1) as usize,
        ..s
    }
}

/// The state with the list of tasks on the screen.
pub open spec fn at_tasks(s: StateView) -> StateView {
    StateView { active_tab: AppTab::Activity, bottom_tab: BottomTab::Tasks, ..s }
}

/// The state after an upload was asked for: nothing moves while one is under way,
/// and without an image on the clipboard there is only a message.
pub open spec fn triggered(
    s: StateView,
    clip: Option<Seq<u8>>,
    created_at: Seq<char>,
    now: u64,
) -> StateView {
    if some_active(s.tasks) {
        s
    } else {
        match clip {
            Some(img) => spawned(
                at_tasks(StateView { last_url: None, ..silent(s) }),
                img,
                created_at,
                now,
            ),
            None => sticky(s, true, "剪贴板中未检测到图片"@),
        }
    }
}

/// Whether a failed task is tried again by itself.
pub open spec fn retries_itself(s: StateView, id: usize) -> bool {
    &&& flag_or(s.config.auto_retry, true)
    &&& task_index(s.tasks, id) matches Some(i)
    &&& s.tasks[i].retry_count < AUTO_RETRY_MAX_RETRIES
}

/// What is said while a task waits to be tried again.
pub open spec fn retry_notice(attempt: u8) -> Seq<char> {
    "上传失败，"@ + decimal(retry_delay(attempt) as nat) + " 秒后自动重试（"@ + decimal(
        attempt as nat,
    ) + "/"@ + decimal(AUTO_RETRY_MAX_RETRIES as nat) + "）"@
}

/// The number of the automatic retry that a task comes to next.
pub open spec fn next_attempt(s: StateView, id: usize) -> u8 {
    (s.tasks[task_index(s.tasks, id)->0].retry_count + 1) as u8
}

/// The state with a failed task that waits to be tried again.
pub open spec fn scheduled(s: StateView, id: usize, message: Seq<char>, now: u64) -> StateView {
    let i = task_index(s.tasks, id)->0;
    let attempt = next_attempt(s, id);
    sticky(
        StateView {
            tasks: s.tasks.update(
                i,
                TaskView {
                    status: StatusView::Retrying {
                        message,
                        attempt,
                        max_retries: AUTO_RETRY_MAX_RETRIES,
                        wait_seconds: retry_delay(attempt),
                    },
                    data_expires_at: Some((now + DATA_KEPT_NANOS) as u64),
                    ..s.tasks[i]
                },
            ),
            ..s
        },
        true,
        retry_notice(attempt),
    )
}

/// The image that a retry of a task uploads: the one it has kept, or the one on the
/// clipboard where it has released it.
pub open spec fn retry_image(t: TaskView, clip: Option<Seq<u8>>) -> Option<Seq<u8>> {
    if t.image_data.len() > 0 {
        Some(t.image_data)
    } else {
        clip
    }
}

/// Whether a retry of that task has to read the clipboard.
pub open spec fn needs_clipboard(s: StateView, id: usize) -> bool {
    task_index(s.tasks, id) matches Some(i) && s.tasks[i].image_data.len() == 0
}

/// One more, up to the largest number there is.
pub open spec fn one_more(n: u8) -> u8 {
    if n < u8::MAX {
        (n + 1) as u8
    } else {
        n
    }
}

/// The state after a retry of a task: it starts over, and a retry by hand gives it
/// all its automatic retries back.
pub open spec fn retried(
    s: StateView,
    id: usize,
    manual: bool,
    clip: Option<Seq<u8>>,
    now: u64,
) -> StateView {
    match task_index(s.tasks, id) {
        Some(i) => match retry_image(s.tasks[i], clip) {
            Some(img) => StateView {
                tasks: s.tasks.update(
                    i,
                    TaskView {
                        status: StatusView::Uploading,
                        image_data: img,
                        data_expires_at: Some((now + DATA_KEPT_NANOS) as u64),
                        retry_count: if manual {
                            0
                        } else {
                            one_more(s.tasks[i].retry_count)
                        },
                        ..s.tasks[i]
                    },
                ),
                ..silent(s)
            },
            None => sticky(s, true, "剪贴板中未检测到图片，无法重试"@),
        },
        None => s,
    }
}

/// The upload that a retry of a task starts.
pub open spec fn retry_job(s: StateView, id: usize, clip: Option<Seq<u8>>) -> Option<
    (usize, Seq<u8>),
> {
    match task_index(s.tasks, id) {
        Some(i) => match retry_image(s.tasks[i], clip) {
            Some(img) => Some((id, img)),
            None => None,
        },
        None => None,
    }
}

/// An upload to be started: the task and its image.
pub struct UploadJob {
    pub task_id: usize,
    pub image: Vec<u8>,
}

/// The upload to be started, if there is one.
pub open spec fn job_model(job: Option<UploadJob>) -> Option<(usize, Seq<u8>)> {
    match job {
        Some(j) => Some((j.task_id, j.image@)),
        None => None,
    }
}

/// The image on the clipboard, if there is one.
pub open spec fn clip_model(clip: Option<Vec<u8>>) -> Option<Seq<u8>> {
    match clip {
        Some(v) => Some(v@),
        None => None,
    }
}

/// Copies an image.
fn copied(img: &Vec<u8>) -> (r: Vec<u8>)
    ensures
        r@ == img@,
{
    let r = img.clone();
    assert(r@ =~= img@);
    r
}

impl AppState {
    /// Shows a message that passes by itself.
    pub fn set_status_auto_clear(&mut self, is_err: bool, msg: String, now: u64)
        requires
            clock_in_range(now),
        ensures
            final(self)@ == passing(old(self)@, now, is_err, msg@),
    {
        self.status = Some((is_err, msg));
        self.status_clear_at = Some(now + STATUS_KEPT_NANOS);
    }

    /// Shows a message that stays.
    pub fn set_status_sticky(&mut self, is_err: bool, msg: String)
        ensures
            final(self)@ == sticky(old(self)@, is_err, msg@),
    {
        self.status = Some((is_err, msg));
        self.status_clear_at = None;
    }

    /// Makes a task that uploads an image, and gives its number and the upload to start.
    pub fn spawn_task(&mut self, img: Vec<u8>, created_at: String, now: u64) -> (job: UploadJob)
        requires
            clock_in_range(now),
            old(self).next_task_id < usize::MAX,
        ensures
            final(self)@ == spawned(old(self)@, img@, created_at@, now),
            job.task_id == old(self).next_task_id,
            job.image@ == img@,
    {
        let task_id = self.next_task_id;
        self.next_task_id = task_id + 1;
        let image = copied(&img);
        let task = UploadTask {
            id: task_id,
            status: TaskStatus::Uploading,
            image_data: img,
            created_at,
            data_expires_at: Some(now + DATA_KEPT_NANOS),
            retry_count: 0,
        };
        self.tasks.push(task);
        assert(self@.tasks =~= spawned(old(self)@, img@, created_at@, now).tasks);
        UploadJob { task_id, image }
    }

    /// Asks for an upload of the image on the clipboard, and gives the upload to start.
    pub fn trigger_upload(
        &mut self,
        clip: Option<Vec<u8>>,
        created_at: String,
        now: u64,
    ) -> (job: Option<UploadJob>)
        requires
            clock_in_range(now),
            clip is Some && !some_active(old(self)@.tasks) ==> old(self).next_task_id < usize::MAX,
        ensures
            final(self)@ == triggered(old(self)@, clip_model(clip), created_at@, now),
            job_model(job) == (if some_active(old(self)@.tasks) {
                None
            } else {
                match clip_model(clip) {
                    Some(img) => Some((old(self).next_task_id, img)),
                    None => None,
                }
            }),
    {
        if has_active(&self.tasks) {
            return None;
        }
        match clip {
            Some(img) => {
                self.status = None;
                self.status_clear_at = None;
                self.last_url = None;
                self.active_tab = AppTab::Activity;
                self.bottom_tab = BottomTab::Tasks;
                Some(self.spawn_task(img, created_at, now))
            },
            None => {
                self.set_status_sticky(true, "剪贴板中未检测到图片".to_owned());
                None
            },
        }
    }

    /// Makes a failed task wait to be tried again, and gives the wait in seconds; there
    /// is none where the task is not tried again by itself.
    pub fn schedule_auto_retry(&mut self, task_id: usize, message: &str, now: u64) -> (wait: Option<
        u64,
    >)
        requires
            clock_in_range(now),
        ensures
            retries_itself(old(self)@, task_id) ==> final(self)@ == scheduled(
                old(self)@,
                task_id,
                message@,
                now,
            ) && wait == Some(retry_delay(next_attempt(old(self)@, task_id))),
            !retries_itself(old(self)@, task_id) ==> final(self)@ == old(self)@ && wait is None,
    {
        if !auto_retry_enabled(&self.config) {
            return None;
        }
        let i = match find_task(&self.tasks, task_id) {
            Some(i) => i,
            None => {
                return None;
            },
        };
        if self.tasks[i].retry_count >= AUTO_RETRY_MAX_RETRIES {
            return None;
        }
        let attempt: u8 = self.tasks[i].retry_count + 1;
        let delay: u64 = auto_retry_delay_seconds(attempt);
        self.tasks[i].status = TaskStatus::Retrying {
            message: message.to_owned(),
            attempt,
            max_retries: AUTO_RETRY_MAX_RETRIES,
            wait_seconds: delay,
        };
        self.tasks[i].data_expires_at = Some(now + DATA_KEPT_NANOS);
        let mut notice = "上传失败，".to_owned();
        notice.append(decimal_text(delay).as_str());
        notice.append(" 秒后自动重试（");
        notice.append(decimal_text(attempt as u64).as_str());
        notice.append("/");
        notice.append(decimal_text(AUTO_RETRY_MAX_RETRIES as u64).as_str());
        notice.append("）");
        self.set_status_sticky(true, notice);
        assert(self@ =~= scheduled(old(self)@, task_id, message@, now));
        Some(delay)
    }

    /// Whether a retry of that task has to read the clipboard.
    pub fn retry_needs_clipboard(&self, task_id: usize) -> (r: bool)
        ensures
            r == needs_clipboard(self@, task_id),
    {
        match find_task(&self.tasks, task_id) {
            Some(i) => self.tasks[i].image_data.len() == 0,
            None => false,
        }
    }

    /// Starts a task over, by hand or by itself, and gives the upload to start.
    pub fn start_retry_task(
        &mut self,
        task_id: usize,
        manual: bool,
        clip: Option<Vec<u8>>,
        now: u64,
    ) -> (job: Option<UploadJob>)
        requires
            clock_in_range(now),
        ensures
            final(self)@ == retried(old(self)@, task_id, manual, clip_model(clip), now),
            job_model(job) == retry_job(old(self)@, task_id, clip_model(clip)),
    {
        let i = match find_task(&self.tasks, task_id) {
            Some(i) => i,
            None => {
                return None;
            },
        };
        let img = if self.tasks[i].image_data.len() > 0 {
            copied(&self.tasks[i].image_data)
        } else {
            match clip {
                Some(v) => v,
                None => {
                    self.set_status_sticky(true, "剪贴板中未检测到图片，无法重试".to_owned());
                    return None;
                },
            }
        };
        self.status = None;
        self.status_clear_at = None;
        let image = copied(&img);
        let count: u8 = self.tasks[i].retry_count;
        self.tasks[i].status = TaskStatus::Uploading;
        self.tasks[i].image_data = img;
        self.tasks[i].data_expires_at = Some(now + DATA_KEPT_NANOS);
        self.tasks[i].retry_count = if manual {
            0
        } else if count < u8::MAX {
            count + 1
        } else {
            count
        };
        assert(self@ =~= retried(old(self)@, task_id, manual, clip_model(clip), now));
        Some(UploadJob { task_id, image })
    }

    /// Starts a task over by hand.
    pub fn retry_task(&mut self, task_id: usize, clip: Option<Vec<u8>>, now: u64) -> (job: Option<
        UploadJob,
    >)
        requires
            clock_in_range(now),
        ensures
            final(self)@ == retried(old(self)@, task_id, true, clip_model(clip), now),
            job_model(job) == retry_job(old(self)@, task_id, clip_model(clip)),
    {
        self.start_retry_task(task_id, true, clip, now)
    }

    /// Starts a task over by itself.
    pub fn retry_task_auto(&mut self, task_id: usize, clip: Option<Vec<u8>>, now: u64) -> (job:
        Option<UploadJob>)
        requires
            clock_in_range(now),
        ensures
            final(self)@ == retried(old(self)@, task_id, false, clip_model(clip), now),
            job_model(job) == retry_job(old(self)@, task_id, clip_model(clip)),
    {
        self.start_retry_task(task_id, false, clip, now)
    }
}

} // verus!
