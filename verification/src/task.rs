//! Upload tasks and the way each goes through its upload.
use vstd::prelude::*;

use crate::config::{Config, ConfigView};
use crate::json::{parsed_json, JsonView};
use crate::response::{answer_meaning, outcome_model, parse_upload_response, UploadFailure};
use crate::text::joined;

verus! {

/// How far an upload has come.
#[derive(Debug)]
pub enum TaskStatus {
    /// The file is on its way.
    Uploading,
    /// The file is sent, and the server has not answered yet.
    Processing,
    /// It failed, and is tried again by itself after a wait.
    Retrying { message: String, attempt: u8, max_retries: u8, wait_seconds: u64 },
    /// It succeeded, with this link and this `src`.
    Success(String, String),
    /// It failed for good, unless it is tried again by hand.
    Failed { message: String, retryable: bool },
}

/// The model of a [`TaskStatus`].
pub enum StatusView {
    Uploading,
    Processing,
    Retrying { message: Seq<char>, attempt: u8, max_retries: u8, wait_seconds: u64 },
    Success(Seq<char>, Seq<char>),
    Failed { message: Seq<char>, retryable: bool },
}

impl View for TaskStatus {
    type V = StatusView;

    open spec fn view(&self) -> StatusView {
        match *self {
            TaskStatus::Uploading => StatusView::Uploading,
            TaskStatus::Processing => StatusView::Processing,
            TaskStatus::Retrying { message, attempt, max_retries, wait_seconds } =>
                StatusView::Retrying { message: message@, attempt, max_retries, wait_seconds },
            TaskStatus::Success(url, src) => StatusView::Success(url@, src@),
            TaskStatus::Failed { message, retryable } => StatusView::Failed {
                message: message@,
                retryable,
            },
        }
    }
}

impl Clone for TaskStatus {
    fn clone(&self) -> (r: Self)
        ensures
            r@ == self@,
    {
        match self {
            TaskStatus::Uploading => TaskStatus::Uploading,
            TaskStatus::Processing => TaskStatus::Processing,
            TaskStatus::Retrying { message, attempt, max_retries, wait_seconds } =>
                TaskStatus::Retrying {
                    message: message.clone(),
                    attempt: *attempt,
                    max_retries: *max_retries,
                    wait_seconds: *wait_seconds,
                },
            TaskStatus::Success(url, src) => TaskStatus::Success(url.clone(), src.clone()),
            TaskStatus::Failed { message, retryable } => TaskStatus::Failed {
                message: message.clone(),
                retryable: *retryable,
            },
        }
    }
}

/// An upload.
#[derive(Debug)]
pub struct UploadTask {
    pub id: usize,
    pub status: TaskStatus,
    /// The image, kept for another try; empty once it is released.
    pub image_data: Vec<u8>,
    /// The time of day at which the task was made.
    pub created_at: String,
    /// The moment after which the image is released, in nanoseconds.
    pub data_expires_at: Option<u64>,
    /// How many automatic retries have been made.
    pub retry_count: u8,
}

/// The model of an [`UploadTask`].
#[verifier::ext_equal]
pub struct TaskView {
    pub id: usize,
    pub status: StatusView,
    pub image_data: Seq<u8>,
    pub created_at: Seq<char>,
    pub data_expires_at: Option<u64>,
    pub retry_count: u8,
}

impl View for UploadTask {
    type V = TaskView;

    open spec fn view(&self) -> TaskView {
        TaskView {
            id: self.id,
            status: self.status@,
            image_data: self.image_data@,
            created_at: self.created_at@,
            data_expires_at: self.data_expires_at,
            retry_count: self.retry_count,
        }
    }
}

impl Clone for UploadTask {
    fn clone(&self) -> (r: Self)
        ensures
            r@ == self@,
    {
        let r = UploadTask {
            id: self.id,
            status: self.status.clone(),
            image_data: self.image_data.clone(),
            created_at: self.created_at.clone(),
            data_expires_at: self.data_expires_at,
            retry_count: self.retry_count,
        };
        assert(r@ =~= self@);
        r
    }
}

/// The models of a list of tasks.
pub open spec fn task_models(tasks: Seq<UploadTask>) -> Seq<TaskView> {
    Seq::new(tasks.len(), |i: int| tasks[i]@)
}

/// How many automatic retries a task gets.
pub const AUTO_RETRY_MAX_RETRIES: u8 = 2;

/// How long an image is kept, in nanoseconds.
pub const DATA_KEPT_NANOS: u64 = 300_000_000_000;

/// The wait in seconds before an automatic retry.
pub open spec fn retry_delay(attempt: u8) -> u64 {
    if attempt == 1 {
        2
    } else if attempt == 2 {
        5
    } else {
        8
    }
}

/// The wait in seconds before an automatic retry.
pub fn auto_retry_delay_seconds(retry_attempt: u8) -> (r: u64)
    ensures
        r == retry_delay(retry_attempt),
{
    match retry_attempt {
        1 => 2,
        2 => 5,
        _ => 8,
    }
}

/// Whether the upload is still under way.
pub open spec fn is_active(status: StatusView) -> bool {
    status is Uploading || status is Processing || status is Retrying
}

/// Whether the upload is still under way.
pub fn task_is_active(status: &TaskStatus) -> (r: bool)
    ensures
        r == is_active(status@),
{
    match status {
        TaskStatus::Uploading => true,
        TaskStatus::Processing => true,
        TaskStatus::Retrying { .. } => true,
        TaskStatus::Success(_, _) => false,
        TaskStatus::Failed { .. } => false,
    }
}

/// The first place of a task with that number.
pub open spec fn task_index(tasks: Seq<TaskView>, id: usize) -> Option<int>
    decreases tasks.len(),
{
    if tasks.len() == 0 {
        None
    } else if tasks[0].id == id {
        Some(0)
    } else {
        match task_index(tasks.drop_first(), id) {
            Some(i) => Some(i + 1),
            None => None,
        }
    }
}

/// What the first place of a task says: it holds that number and no place before it
/// does, and where there is none, no place does.
pub proof fn lemma_task_index(tasks: Seq<TaskView>, id: usize)
    ensures
        match task_index(tasks, id) {
            Some(i) => 0 <= i < tasks.len() && tasks[i].id == id && forall|k: int|
                0 <= k < i ==> (#[trigger] tasks[k]).id != id,
            None => forall|k: int| 0 <= k < tasks.len() ==> (#[trigger] tasks[k]).id != id,
        },
    decreases tasks.len(),
{
    if tasks.len() > 0 && tasks[0].id != id {
        let rest = tasks.drop_first();
        lemma_task_index(rest, id);
        assert forall|k: int| 0 <= k < tasks.len() && k > 0 implies tasks[k] == rest[k - 1] by {}
    }
}

/// Finds the first task with that number.
pub fn find_task(tasks: &Vec<UploadTask>, id: usize) -> (r: Option<usize>)
    ensures
        match r {
            Some(i) => i < tasks.len() && task_index(task_models(tasks@), id) == Some(i as int),
            None => task_index(task_models(tasks@), id) is None,
        },
{
    let ghost all = task_models(tasks@);
    let mut i: usize = 0;
    proof {
        lemma_task_index(all, id);
    }
    while i < tasks.len()
        invariant
            i <= tasks.len(),
            all == task_models(tasks@),
            forall|k: int| 0 <= k < i ==> (#[trigger] all[k]).id != id,
            match task_index(all, id) {
                Some(j) => 0 <= j < all.len() && all[j].id == id && forall|k: int|
                    0 <= k < j ==> (#[trigger] all[k]).id != id,
                None => forall|k: int| 0 <= k < all.len() ==> (#[trigger] all[k]).id != id,
            },
        decreases tasks.len() - i,
    {
        assert(all[i as int].id == tasks@[i as int].id);
        if tasks[i].id == id {
            return Some(i);
        }
        i += 1;
    }
    None
}

/// Whether some upload is still under way.
pub open spec fn some_active(tasks: Seq<TaskView>) -> bool {
    exists|i: int| 0 <= i < tasks.len() && is_active((#[trigger] tasks[i]).status)
}

/// Whether some upload is still under way.
pub fn has_active(tasks: &Vec<UploadTask>) -> (r: bool)
    ensures
        r == some_active(task_models(tasks@)),
{
    let ghost all = task_models(tasks@);
    let mut i: usize = 0;
    while i < tasks.len()
        invariant
            i <= tasks.len(),
            all == task_models(tasks@),
            forall|k: int| 0 <= k < i ==> !is_active((#[trigger] all[k]).status),
        decreases tasks.len() - i,
    {
        assert(all[i as int].status == tasks@[i as int].status@);
        if task_is_active(&tasks[i].status) {
            return true;
        }
        i += 1;
    }
    false
}

/// What happens on the way of an upload to its server.
pub enum UploadEvent {
    /// The request could not be put together.
    BuildFailed(String),
    /// The request could not be sent; the second part tells whether the request itself
    /// was at fault, such as by its address or a header, and not the way to the server.
    SendFailed(String, bool),
    /// The request is sent, and an answer begins.
    Sent,
    /// The answer is there: its status code and its text.
    Answered(u16, String),
}

/// The model of an [`UploadEvent`].
pub enum UploadEventView {
    BuildFailed(Seq<char>),
    SendFailed(Seq<char>, bool),
    Sent,
    Answered(u16, Seq<char>),
}

impl View for UploadEvent {
    type V = UploadEventView;

    open spec fn view(&self) -> UploadEventView {
        match *self {
            UploadEvent::BuildFailed(e) => UploadEventView::BuildFailed(e@),
            UploadEvent::SendFailed(e, malformed) => UploadEventView::SendFailed(e@, malformed),
            UploadEvent::Sent => UploadEventView::Sent,
            UploadEvent::Answered(code, text) => UploadEventView::Answered(code, text@),
        }
    }
}

/// What a task comes to by an event on its way, given what the text of an answer is
/// as JSON.
pub open spec fn upload_status(
    cfg: ConfigView,
    event: UploadEventView,
    parsed: Option<JsonView>,
) -> StatusView {
    match event {
        UploadEventView::BuildFailed(e) => StatusView::Failed {
            message: "构建请求失败: "@ + e,
            retryable: false,
        },
        UploadEventView::SendFailed(e, malformed) => StatusView::Failed {
            message: "发送请求失败: "@ + e,
            retryable: !malformed,
        },
        UploadEventView::Sent => StatusView::Processing,
        UploadEventView::Answered(code, text) => answered_status(
            answer_meaning(cfg, code, text, parsed),
        ),
    }
}

/// What the text of an answer is as JSON.
pub open spec fn answer_json(event: UploadEventView) -> Option<JsonView> {
    match event {
        UploadEventView::Answered(_, text) => parsed_json(text),
        _ => None,
    }
}

/// What an event on the way of an upload leads to.
pub struct UploadStep {
    /// What the task comes to.
    pub status: TaskStatus,
    /// The link and the `src` to be put into the history.
    pub record: Option<(String, String)>,
    /// Whether the upload is over.
    pub over: bool,
}

/// The link and the `src` that a success puts into the history.
pub open spec fn record_of(status: StatusView) -> Option<(Seq<char>, Seq<char>)> {
    match status {
        StatusView::Success(url, src) => Some((url, src)),
        _ => None,
    }
}

/// The link and the `src` to be put into the history.
pub open spec fn record_model(r: Option<(String, String)>) -> Option<(Seq<char>, Seq<char>)> {
    match r {
        Some((url, src)) => Some((url@, src@)),
        None => None,
    }
}

/// What a task comes to by what its answer means.
pub open spec fn answered_status(
    outcome: Result<(Seq<char>, Seq<char>), (Seq<char>, bool)>,
) -> StatusView {
    match outcome {
        Ok((url, src)) => StatusView::Success(url, src),
        Err((message, retryable)) => StatusView::Failed {
            message: "上传失败: "@ + message,
            retryable,
        },
    }
}

/// What the answer to an upload leads to.
pub fn answered(outcome: Result<(String, String), UploadFailure>) -> (r: UploadStep)
    ensures
        r.status@ == answered_status(outcome_model(outcome)),
        record_model(r.record) == record_of(r.status@),
        r.over,
{
    match outcome {
        Ok((url, src)) => UploadStep {
            record: Some((url.clone(), src.clone())),
            status: TaskStatus::Success(url, src),
            over: true,
        },
        Err(f) => UploadStep {
            status: TaskStatus::Failed {
                message: joined("上传失败: ", f.message.as_str()),
                retryable: f.retryable,
            },
            record: None,
            over: true,
        },
    }
}

/// What an event on the way of an upload leads to: the stage of the task, a record of
/// a success, and the end of the upload, unless its answer is still to come.
pub fn do_upload_task(cfg: &Config, event: UploadEvent) -> (r: UploadStep)
    requires
        event matches UploadEvent::Answered(code, _) ==> 100 <= code <= 999,
    ensures
        r.status@ == upload_status(cfg@, event@, answer_json(event@)),
        record_model(r.record) == record_of(r.status@),
        r.over == !(event is Sent),
{
    match event {
        UploadEvent::BuildFailed(e) => UploadStep {
            status: TaskStatus::Failed {
                message: joined("构建请求失败: ", e.as_str()),
                retryable: false,
            },
            record: None,
            over: true,
        },
        UploadEvent::SendFailed(e, malformed) => UploadStep {
            status: TaskStatus::Failed {
                message: joined("发送请求失败: ", e.as_str()),
                retryable: !malformed,
            },
            record: None,
            over: true,
        },
        UploadEvent::Sent => UploadStep {
            status: TaskStatus::Processing,
            record: None,
            over: false,
        },
        UploadEvent::Answered(code, text) => answered(
            parse_upload_response(cfg, code, text.as_str()),
        ),
    }
}

/// A failure is worth an automatic retry exactly where a request without fault could
/// not be sent, or the server was busy or at fault. A request that cannot be put
/// together or is at fault itself, an answer in which the rule finds no link, and every
/// other refusal are not.
pub proof fn lemma_temporary_failures(
    cfg: ConfigView,
    event: UploadEventView,
    parsed: Option<JsonView>,
)
    ensures
        (upload_status(cfg, event, parsed) matches StatusView::Failed { retryable, .. }
            && retryable) <==> ((event matches UploadEventView::SendFailed(_, malformed)
            && !malformed) || (event matches UploadEventView::Answered(code, _) && (code == 429
            || 500 <= code <= 599))),
{
}

} // verus!
