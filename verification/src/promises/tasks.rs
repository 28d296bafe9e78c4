//! What becomes of a task and its image.
use vstd::prelude::*;

use crate::digits::decimal;
use crate::events::{
    after_event, event_actions, progress_actions, progressed, ActionView, EventView,
};
use crate::state::{
    clock_in_range, needs_clipboard, passing, retried, retries_itself, retry_job, silent, spawned,
    sticky, triggered, AppTab, BottomTab, StateView,
};
use crate::task::{
    is_active, lemma_task_index, retry_delay, some_active, task_index, StatusView, TaskView,
};
use crate::window::frame_begun;

verus! {

/// Whether this is the place of the first task of that number.
pub open spec fn is_place(tasks: Seq<TaskView>, id: usize, i: int) -> bool {
    &&& 0 <= i < tasks.len()
    &&& tasks[i].id == id
    &&& forall|k: int| 0 <= k < i ==> (#[trigger] tasks[k]).id != id
}

/// Whether no task has that number.
pub open spec fn no_place(tasks: Seq<TaskView>, id: usize) -> bool {
    forall|k: int| 0 <= k < tasks.len() ==> (#[trigger] tasks[k]).id != id
}

/// Whether a failed task may still be tried again by itself: the setting is not off, and
/// it was tried again less than twice.
pub open spec fn has_retries(s: StateView, i: int) -> bool {
    s.config.auto_retry != Some(false) && s.tasks[i].retry_count < 2
}

/// The place of a number is the first task of that number.
pub proof fn lemma_place(tasks: Seq<TaskView>, id: usize, i: int)
    ensures
        is_place(tasks, id, i) ==> task_index(tasks, id) == Some(i),
        no_place(tasks, id) ==> task_index(tasks, id) is None,
        task_index(tasks, id) matches Some(k) ==> is_place(tasks, id, k),
        task_index(tasks, id) is None ==> no_place(tasks, id),
{
    lemma_task_index(tasks, id);
}

/// A task is under way while it uploads, is processed or waits to be tried again, and
/// no longer after a success or a failure; some task is under way where one of them is.
pub proof fn lemma_under_way(tasks: Seq<TaskView>, status: StatusView)
    ensures
        is_active(status) <==> status is Uploading || status is Processing || status is Retrying,
        some_active(tasks) <==> exists|k: int|
            0 <= k < tasks.len() && !((#[trigger] tasks[k]).status is Success)
                && !(tasks[k].status is Failed),
{
    if some_active(tasks) {
        let k = choose|k: int| 0 <= k < tasks.len() && is_active((#[trigger] tasks[k]).status);
        assert(!(tasks[k].status is Success));
    }
    if exists|k: int|
        0 <= k < tasks.len() && !((#[trigger] tasks[k]).status is Success)
            && !(tasks[k].status is Failed) {
        let k = choose|k: int|
            0 <= k < tasks.len() && !((#[trigger] tasks[k]).status is Success)
                && !(tasks[k].status is Failed);
        assert(is_active(tasks[k].status));
    }
}

/// A message is what it is told to be: one that passes goes three seconds later, one that
/// stays has no such moment, and nothing else of the state changes.
pub proof fn lemma_messages(s: StateView, now: u64, is_err: bool, msg: Seq<char>)
    requires
        now <= u64::MAX - 300_000_000_000,
    ensures
        ({
            let p = passing(s, now, is_err, msg);
            &&& p.status == Some((is_err, msg))
            &&& p.status_clear_at is Some && p.status_clear_at->0 == now + 3_000_000_000
            &&& p == StateView { status: p.status, status_clear_at: p.status_clear_at, ..s }
        }),
        ({
            let p = sticky(s, is_err, msg);
            &&& p.status == Some((is_err, msg))
            &&& p.status_clear_at is None
            &&& p == StateView { status: p.status, status_clear_at: p.status_clear_at, ..s }
        }),
        ({
            let p = silent(s);
            &&& p.status is None
            &&& p.status_clear_at is None
            &&& p == StateView { status: p.status, status_clear_at: p.status_clear_at, ..s }
        }),
{
}

/// A new task stands behind the others with the next number, uploads the image as it is,
/// has no retry behind it, and keeps the image for five minutes. The others stay as they
/// are, and so does the rest of the state.
pub proof fn lemma_new_task(s: StateView, img: Seq<u8>, created_at: Seq<char>, now: u64)
    requires
        now <= u64::MAX - 300_000_000_000,
        s.next_task_id < usize::MAX,
    ensures
        ({
            let n = spawned(s, img, created_at, now);
            let t = n.tasks.last();
            &&& n.tasks.len() == s.tasks.len() + 1
            &&& n.tasks.drop_last() == s.tasks
            &&& t.id == s.next_task_id
            &&& t.status is Uploading
            &&& t.image_data == img
            &&& t.created_at == created_at
            &&& t.data_expires_at is Some && t.data_expires_at->0 == now + 300_000_000_000
            &&& t.retry_count == 0
            &&& n.next_task_id == s.next_task_id + 1
            &&& n == StateView { tasks: n.tasks, next_task_id: n.next_task_id, ..s }
        }),
{
    assert(spawned(s, img, created_at, now).tasks.drop_last() =~= s.tasks);
}

/// While a task is under way, asking for an upload changes nothing. Otherwise an image on
/// the clipboard becomes a new task, the list of tasks is shown, and the message and the
/// last link go; without an image there is a message that stays, and nothing else.
pub proof fn lemma_asking_for_an_upload(
    s: StateView,
    img: Seq<u8>,
    created_at: Seq<char>,
    now: u64,
    k: int,
)
    ensures
        0 <= k < s.tasks.len() && !(s.tasks[k].status is Success) && !(s.tasks[k].status is Failed)
            ==> triggered(s, Some(img), created_at, now) == s && triggered(
            s,
            None,
            created_at,
            now,
        ) == s,
        (forall|j: int|
            0 <= j < s.tasks.len() ==> (#[trigger] s.tasks[j]).status is Success
                || s.tasks[j].status is Failed) ==> ({
            let shown = StateView {
                status: None,
                status_clear_at: None,
                last_url: None,
                active_tab: AppTab::Activity,
                bottom_tab: BottomTab::Tasks,
                ..s
            };
            &&& triggered(s, Some(img), created_at, now) == spawned(shown, img, created_at, now)
            &&& triggered(s, None, created_at, now) == StateView {
                status: Some((true, "剪贴板中未检测到图片"@)),
                status_clear_at: None,
                ..s
            }
        }),
{
    if 0 <= k < s.tasks.len() && !(s.tasks[k].status is Success) && !(s.tasks[k].status is Failed) {
        assert(is_active(s.tasks[k].status));
        assert(some_active(s.tasks));
    }
}

/// A success is told of its task alone: the task has its link and its `src`, its image is
/// released and its retries are forgotten, and the link is the last one. The message
/// passes, and says whether the link was copied.
pub proof fn lemma_success(
    s: StateView,
    id: usize,
    i: int,
    url: Seq<char>,
    src: Seq<char>,
    now: u64,
)
    requires
        is_place(s.tasks, id, i),
        now <= u64::MAX - 300_000_000_000,
    ensures
        ({
            let n = progressed(s, id, StatusView::Success(url, src), now);
            &&& n.tasks == s.tasks.update(
                i,
                TaskView {
                    status: StatusView::Success(url, src),
                    image_data: Seq::empty(),
                    retry_count: 0,
                    ..s.tasks[i]
                },
            )
            &&& n.last_url == Some(url)
            &&& n.status == Some(
                (
                    false,
                    if s.config.copy_to_clipboard == Some(true) {
                        "上传成功，链接已复制"@
                    } else {
                        "上传成功"@
                    },
                ),
            )
            &&& n.status_clear_at is Some && n.status_clear_at->0 == now + 3_000_000_000
            &&& n == StateView {
                tasks: n.tasks,
                last_url: n.last_url,
                status: n.status,
                status_clear_at: n.status_clear_at,
                ..s
            }
        }),
{
    lemma_place(s.tasks, id, i);
}

/// A failure never releases the image of its task, whether it may pass or not and whether
/// or not the task is tried again: the image is the one from before. No other task
/// changes, and neither do the history, the settings, the last link and what is shown.
pub proof fn lemma_failure_keeps_the_image(
    s: StateView,
    id: usize,
    message: Seq<char>,
    retryable: bool,
    now: u64,
    k: int,
)
    requires
        0 <= k < s.tasks.len(),
    ensures
        ({
            let n = progressed(s, id, StatusView::Failed { message, retryable }, now);
            &&& n.tasks.len() == s.tasks.len()
            &&& n.tasks[k].image_data == s.tasks[k].image_data
            &&& n.tasks[k].id == s.tasks[k].id
            &&& n.tasks[k].created_at == s.tasks[k].created_at
            &&& n.tasks[k].retry_count == s.tasks[k].retry_count
            &&& s.tasks[k].id != id ==> n.tasks[k] == s.tasks[k]
            &&& n == StateView {
                tasks: n.tasks,
                status: n.status,
                status_clear_at: n.status_clear_at,
                ..s
            }
        }),
{
    lemma_task_index(s.tasks, id);
}

/// A failure that stays, or that has no retry left, is told of its task and changes
/// nothing else of it; the message of the failure stays on the screen.
pub proof fn lemma_failure_for_good(
    s: StateView,
    id: usize,
    i: int,
    message: Seq<char>,
    retryable: bool,
    now: u64,
)
    requires
        is_place(s.tasks, id, i),
        !(retryable && has_retries(s, i)),
    ensures
        progressed(s, id, StatusView::Failed { message, retryable }, now) == (StateView {
            tasks: s.tasks.update(
                i,
                TaskView { status: StatusView::Failed { message, retryable }, ..s.tasks[i] },
            ),
            status: Some((true, message)),
            status_clear_at: None,
            ..s
        }),
        progress_actions(s, id, StatusView::Failed { message, retryable }).len() == 0,
{
    lemma_place(s.tasks, id, i);
}

/// A failure that may pass is tried again by itself while the task has retries left: it
/// waits two seconds for the first and five for the second, its image gets another five
/// minutes, and the message says how long it waits.
pub proof fn lemma_failure_with_a_retry(
    s: StateView,
    id: usize,
    i: int,
    message: Seq<char>,
    now: u64,
)
    requires
        is_place(s.tasks, id, i),
        has_retries(s, i),
        now <= u64::MAX - 300_000_000_000,
    ensures
        ({
            let n = progressed(s, id, StatusView::Failed { message, retryable: true }, now);
            let attempt: u8 = if s.tasks[i].retry_count == 0 {
                1
            } else {
                2
            };
            let wait: u64 = if s.tasks[i].retry_count == 0 {
                2
            } else {
                5
            };
            &&& n == StateView {
                tasks: s.tasks.update(
                    i,
                    TaskView {
                        status: StatusView::Retrying {
                            message,
                            attempt,
                            max_retries: 2,
                            wait_seconds: wait,
                        },
                        data_expires_at: Some((now + 300_000_000_000) as u64),
                        ..s.tasks[i]
                    },
                ),
                status: Some(
                    (
                        true,
                        "上传失败，"@ + decimal(wait as nat) + " 秒后自动重试（"@ + decimal(
                            attempt as nat,
                        ) + "/"@ + decimal(2) + "）"@,
                    ),
                ),
                status_clear_at: None,
                ..s
            }
            &&& progress_actions(s, id, StatusView::Failed { message, retryable: true }) == seq![
                ActionView::RetryAfter(id, wait),
            ]
        }),
{
    lemma_place(s.tasks, id, i);
}

/// The other stages are told of their task: one that uploads keeps its image, one that is
/// processed releases it, and one that waits is left as it is. No message changes.
pub proof fn lemma_other_stages(
    s: StateView,
    id: usize,
    i: int,
    message: Seq<char>,
    attempt: u8,
    max_retries: u8,
    wait_seconds: u64,
    now: u64,
)
    requires
        is_place(s.tasks, id, i),
    ensures
        progressed(s, id, StatusView::Uploading, now) == (StateView {
            tasks: s.tasks.update(i, TaskView { status: StatusView::Uploading, ..s.tasks[i] }),
            ..s
        }),
        progressed(s, id, StatusView::Processing, now) == (StateView {
            tasks: s.tasks.update(
                i,
                TaskView {
                    status: StatusView::Processing,
                    image_data: Seq::empty(),
                    ..s.tasks[i]
                },
            ),
            ..s
        }),
        progressed(
            s,
            id,
            StatusView::Retrying { message, attempt, max_retries, wait_seconds },
            now,
        ) == s,
        progress_actions(s, id, StatusView::Uploading).len() == 0,
        progress_actions(s, id, StatusView::Processing).len() == 0,
        progress_actions(
            s,
            id,
            StatusView::Retrying { message, attempt, max_retries, wait_seconds },
        ).len() == 0,
{
    lemma_place(s.tasks, id, i);
}

/// News of a task that is gone changes no task; a success is still told, and so is a
/// failure, which is not tried again.
pub proof fn lemma_news_of_a_task_that_is_gone(s: StateView, id: usize, status: StatusView, now: u64)
    requires
        no_place(s.tasks, id),
    ensures
        progressed(s, id, status, now).tasks == s.tasks,
        status is Uploading || status is Processing || status is Retrying ==> progressed(
            s,
            id,
            status,
            now,
        ) == s,
        status matches StatusView::Success(url, src) ==> progressed(s, id, status, now)
            == (StateView {
            last_url: Some(url),
            status: Some(
                (
                    false,
                    if s.config.copy_to_clipboard == Some(true) {
                        "上传成功，链接已复制"@
                    } else {
                        "上传成功"@
                    },
                ),
            ),
            status_clear_at: Some((now + 3_000_000_000) as u64),
            ..s
        }),
        status matches StatusView::Failed { message, retryable } ==> progressed(s, id, status, now)
            == (StateView { status: Some((true, message)), status_clear_at: None, ..s })
            && progress_actions(s, id, status).len() == 0,
{
    lemma_place(s.tasks, id, 0);
}

/// After a success the link is copied where the settings say so, then a notification is
/// shown where they say so, and the history is read again in any case.
pub proof fn lemma_after_a_success(s: StateView, id: usize, url: Seq<char>, src: Seq<char>)
    ensures
        ({
            let done = progress_actions(s, id, StatusView::Success(url, src));
            let copies = s.config.copy_to_clipboard == Some(true);
            let notifies = s.config.notify_on_success == Some(true);
            let copy = ActionView::CopyText(url);
            let notify = ActionView::Notify("上传成功"@, url);
            &&& copies && notifies ==> done == seq![copy, notify, ActionView::ReloadHistory]
            &&& copies && !notifies ==> done == seq![copy, ActionView::ReloadHistory]
            &&& !copies && notifies ==> done == seq![notify, ActionView::ReloadHistory]
            &&& !copies && !notifies ==> done == seq![ActionView::ReloadHistory]
        }),
{
}

/// A retry of a task that has kept its image uploads that very image, whatever is on the
/// clipboard; one of a task that has released it uploads the image on the clipboard.
pub proof fn lemma_what_a_retry_uploads(s: StateView, id: usize, i: int, clip: Option<Seq<u8>>)
    requires
        is_place(s.tasks, id, i),
    ensures
        s.tasks[i].image_data.len() > 0 ==> retry_job(s, id, clip) == Some(
            (id, s.tasks[i].image_data),
        ) && !needs_clipboard(s, id),
        s.tasks[i].image_data.len() == 0 ==> needs_clipboard(s, id) && (match clip {
            Some(img) => retry_job(s, id, clip) == Some((id, img)),
            None => retry_job(s, id, clip) is None,
        }),
{
    lemma_place(s.tasks, id, i);
}

/// A retry starts its task over with the image that it uploads, which is kept for another
/// five minutes. One by hand gives the task all its own retries back, one of its own is
/// counted. The message goes, and nothing else changes.
pub proof fn lemma_retry_starts_over(
    s: StateView,
    id: usize,
    i: int,
    manual: bool,
    clip: Option<Seq<u8>>,
    now: u64,
)
    requires
        is_place(s.tasks, id, i),
        s.tasks[i].image_data.len() > 0 || clip is Some,
    ensures
        ({
            let t = s.tasks[i];
            let n = retried(s, id, manual, clip, now);
            &&& n.tasks.len() == s.tasks.len()
            &&& forall|k: int|
                0 <= k < s.tasks.len() && k != i ==> #[trigger] n.tasks[k] == s.tasks[k]
            &&& n.tasks[i].id == t.id
            &&& n.tasks[i].created_at == t.created_at
            &&& n.tasks[i].status is Uploading
            &&& n.tasks[i].image_data == (if t.image_data.len() > 0 {
                t.image_data
            } else {
                clip->0
            })
            &&& now <= u64::MAX - 300_000_000_000 ==> n.tasks[i].data_expires_at is Some
                && n.tasks[i].data_expires_at->0 == now + 300_000_000_000
            &&& manual ==> n.tasks[i].retry_count == 0
            &&& !manual && t.retry_count < 255 ==> n.tasks[i].retry_count == t.retry_count + 1
            &&& !manual && t.retry_count == 255 ==> n.tasks[i].retry_count == 255
            &&& n == StateView { tasks: n.tasks, status: None, status_clear_at: None, ..s }
        }),
{
    lemma_place(s.tasks, id, i);
}

/// A retry that finds no image leaves every task as it is and says so; a retry of a task
/// that is gone does nothing at all.
pub proof fn lemma_retry_without_an_image(
    s: StateView,
    id: usize,
    i: int,
    manual: bool,
    clip: Option<Seq<u8>>,
    now: u64,
)
    ensures
        is_place(s.tasks, id, i) && s.tasks[i].image_data.len() == 0 ==> retried(
            s,
            id,
            manual,
            None,
            now,
        ) == (StateView {
            status: Some((true, "剪贴板中未检测到图片，无法重试"@)),
            status_clear_at: None,
            ..s
        }),
        no_place(s.tasks, id) ==> retried(s, id, manual, clip, now) == s && retry_job(s, id, clip)
            is None && !needs_clipboard(s, id),
{
    lemma_place(s.tasks, id, i);
}

/// A failure and then a retry by hand upload the same image again: the retry needs no
/// clipboard, whatever is on it, and whatever the failure was.
pub proof fn lemma_retry_after_a_failure(
    s: StateView,
    id: usize,
    i: int,
    message: Seq<char>,
    retryable: bool,
    failed_at: u64,
    clip: Option<Seq<u8>>,
    now: u64,
)
    requires
        is_place(s.tasks, id, i),
        s.tasks[i].image_data.len() > 0,
    ensures
        ({
            let f = progressed(s, id, StatusView::Failed { message, retryable }, failed_at);
            &&& !needs_clipboard(f, id)
            &&& retry_job(f, id, clip) == Some((id, s.tasks[i].image_data))
            &&& retried(f, id, true, clip, now).tasks[i].image_data == s.tasks[i].image_data
        }),
{
    let f = progressed(s, id, StatusView::Failed { message, retryable }, failed_at);
    lemma_place(s.tasks, id, i);
    assert forall|k: int| 0 <= k < i implies (#[trigger] f.tasks[k]).id != id by {
        assert(f.tasks[k] == s.tasks[k]);
    }
    assert(is_place(f.tasks, id, i));
    lemma_place(f.tasks, id, i);
}

/// A failure and the retry by hand that answers it: what failed and when, whether the
/// failure may pass, and the moment of the retry.
pub struct FailedRound {
    pub message: Seq<char>,
    pub retryable: bool,
    pub failed_at: u64,
    pub retried_at: u64,
}

/// The state after the failure of a round.
pub open spec fn round_failed(s: StateView, id: usize, r: FailedRound) -> StateView {
    progressed(
        s,
        id,
        StatusView::Failed { message: r.message, retryable: r.retryable },
        r.failed_at,
    )
}

/// The state after a number of rounds, with nothing on the clipboard.
pub open spec fn after_rounds(s: StateView, id: usize, rounds: Seq<FailedRound>) -> StateView
    decreases rounds.len(),
{
    if rounds.len() == 0 {
        s
    } else {
        let r = rounds.last();
        let before = after_rounds(s, id, rounds.drop_last());
        retried(round_failed(before, id, r), id, true, None, r.retried_at)
    }
}

/// However often a task fails, each retry by hand uploads the image that it had at first,
/// with nothing on the clipboard: no failure takes it away.
pub proof fn lemma_every_retry_uploads_the_image(
    s: StateView,
    id: usize,
    i: int,
    rounds: Seq<FailedRound>,
    next: FailedRound,
)
    requires
        is_place(s.tasks, id, i),
        s.tasks[i].image_data.len() > 0,
    ensures
        ({
            let n = after_rounds(s, id, rounds);
            &&& is_place(n.tasks, id, i)
            &&& n.tasks[i].image_data == s.tasks[i].image_data
            &&& retry_job(round_failed(n, id, next), id, None) == Some(
                (id, s.tasks[i].image_data),
            )
        }),
    decreases rounds.len(),
{
    let n = after_rounds(s, id, rounds);
    if rounds.len() > 0 {
        let r = rounds.last();
        let before = after_rounds(s, id, rounds.drop_last());
        lemma_every_retry_uploads_the_image(s, id, i, rounds.drop_last(), r);
        let failed = round_failed(before, id, r);
        lemma_place(before.tasks, id, i);
        assert forall|k: int| 0 <= k < i implies (#[trigger] failed.tasks[k]).id != id by {
            assert(failed.tasks[k] == before.tasks[k]);
        }
        assert(is_place(failed.tasks, id, i));
        lemma_place(failed.tasks, id, i);
        assert forall|k: int| 0 <= k < i implies (#[trigger] n.tasks[k]).id != id by {
            assert(n.tasks[k] == failed.tasks[k]);
        }
    }
    lemma_retry_after_a_failure(
        n,
        id,
        i,
        next.message,
        next.retryable,
        next.failed_at,
        None,
        next.retried_at,
    );
}

/// An image that is kept is not released before its time: at the beginning of a frame a
/// task loses its image exactly where its time is over, and changes in nothing else.
pub proof fn lemma_images_are_kept_for_their_time(s: StateView, now: u64, k: int)
    requires
        0 <= k < s.tasks.len(),
    ensures
        ({
            let n = frame_begun(s, now);
            let t = s.tasks[k];
            let over = t.data_expires_at matches Some(at) && now > at && t.image_data.len() > 0;
            &&& n.tasks.len() == s.tasks.len()
            &&& !over ==> n.tasks[k] == t
            &&& over ==> n.tasks[k] == TaskView {
                image_data: Seq::empty(),
                data_expires_at: None,
                ..t
            }
        }),
{
}

/// At the beginning of a frame a message goes exactly where its moment has come, and
/// nothing but messages and images changes.
pub proof fn lemma_messages_go_at_their_moment(s: StateView, now: u64)
    ensures
        ({
            let n = frame_begun(s, now);
            let over = s.status_clear_at matches Some(at) && now >= at;
            &&& over ==> n.status is None && n.status_clear_at is None
            &&& !over ==> n.status == s.status && n.status_clear_at == s.status_clear_at
            &&& n == StateView {
                tasks: n.tasks,
                status: n.status,
                status_clear_at: n.status_clear_at,
                ..s
            }
        }),
{
}

/// What the program does about what reaches it from outside.
pub proof fn lemma_what_events_do(
    s: StateView,
    id: usize,
    status: StatusView,
    img: Seq<u8>,
    url: Seq<char>,
    created_at: Seq<char>,
    now: u64,
)
    ensures
        after_event(s, EventView::TaskProgress(id, status), created_at, now) == progressed(
            s,
            id,
            status,
            now,
        ),
        event_actions(s, EventView::TaskProgress(id, status)) == progress_actions(s, id, status),
        after_event(s, EventView::WatchUpload(img), created_at, now) == spawned(
            StateView { active_tab: AppTab::Activity, bottom_tab: BottomTab::Tasks, ..s },
            img,
            created_at,
            now,
        ),
        event_actions(s, EventView::WatchUpload(img)) == seq![
            ActionView::Upload(s.next_task_id, img),
        ],
        after_event(s, EventView::TrayQuit, created_at, now) == (StateView {
            quit_requested: true,
            ..s
        }),
        event_actions(s, EventView::TrayQuit).len() == 0,
        after_event(s, EventView::TrayShowWindow, created_at, now) == s,
        event_actions(s, EventView::TrayShowWindow) == seq![ActionView::ShowWindow],
        after_event(s, EventView::TrayUpload, created_at, now) == s,
        event_actions(s, EventView::TrayUpload) == (if some_active(s.tasks) {
            seq![]
        } else {
            seq![ActionView::ReadForUpload]
        }),
        after_event(s, EventView::TrayCopyUrl(url), created_at, now) == s,
        event_actions(s, EventView::TrayCopyUrl(url)) == seq![ActionView::CopyTrayLink(url)],
{
}

/// The tray switches the watch to what it was not, in the settings and on the screen, and
/// the watch is told; twice it is where it was.
pub proof fn lemma_watch_is_switched(s: StateView, created_at: Seq<char>, now: u64)
    ensures
        ({
            let n = after_event(s, EventView::TrayToggleWatch, created_at, now);
            let m = after_event(n, EventView::TrayToggleWatch, created_at, now);
            &&& n.config.auto_watch == Some(s.config.auto_watch != Some(true))
            &&& n.watch_active == (s.config.auto_watch != Some(true))
            &&& n.config == crate::config::ConfigView {
                auto_watch: n.config.auto_watch,
                ..s.config
            }
            &&& n == StateView { config: n.config, watch_active: n.watch_active, ..s }
            &&& m.watch_active == (s.config.auto_watch == Some(true))
        }),
        event_actions(s, EventView::TrayToggleWatch) == seq![ActionView::ShareConfig],
{
}

/// When the wait of a task is over it is tried again with the image that it has kept, and
/// where it has released it the clipboard is read first; a task that is gone is not.
pub proof fn lemma_when_the_wait_is_over(
    s: StateView,
    id: usize,
    i: int,
    created_at: Seq<char>,
    now: u64,
)
    ensures
        is_place(s.tasks, id, i) && s.tasks[i].image_data.len() > 0 ==> after_event(
            s,
            EventView::RetryTask(id),
            created_at,
            now,
        ) == retried(s, id, false, None, now) && event_actions(s, EventView::RetryTask(id)) == seq![
            ActionView::Upload(id, s.tasks[i].image_data),
        ],
        is_place(s.tasks, id, i) && s.tasks[i].image_data.len() == 0 ==> after_event(
            s,
            EventView::RetryTask(id),
            created_at,
            now,
        ) == s && event_actions(s, EventView::RetryTask(id)) == seq![ActionView::ReadForRetry(id)],
        no_place(s.tasks, id) ==> after_event(s, EventView::RetryTask(id), created_at, now) == s
            && event_actions(s, EventView::RetryTask(id)).len() == 0,
{
    lemma_place(s.tasks, id, i);
}

/// Every moment counts from which five minutes on can still be told.
pub proof fn lemma_moments(now: u64)
    ensures
        clock_in_range(now) <==> now + 300_000_000_000 <= u64::MAX,
{
}

/// The wait grows from one retry to the next: two seconds, five, and eight from then on.
pub proof fn lemma_waits(attempt: u8)
    ensures
        retry_delay(1) == 2,
        retry_delay(2) == 5,
        attempt != 1 && attempt != 2 ==> retry_delay(attempt) == 8,
{
}

/// A failed task is tried again by itself exactly where the setting is not off and it was
/// tried again less than twice.
pub proof fn lemma_when_a_task_retries(s: StateView, id: usize, i: int)
    ensures
        is_place(s.tasks, id, i) ==> (retries_itself(s, id) <==> has_retries(s, i)),
        no_place(s.tasks, id) ==> !retries_itself(s, id),
{
    lemma_place(s.tasks, id, i);
}

} // verus!
