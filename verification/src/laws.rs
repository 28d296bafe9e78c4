//! What holds of the program as a whole.
use vstd::prelude::*;

use crate::config::{flag_or, ConfigView};
use crate::events::{
    after_event, event_actions, progressed, replaced, success_message, watch_switched, ActionView,
    EventView,
};
use crate::state::{
    at_tasks, clock_in_range, passing, retried, retries_itself, retry_job, scheduled, silent,
    spawned, sticky, triggered, AppTab, BottomTab, RecordView, StateView, STATUS_KEPT_NANOS,
};
use crate::task::{
    is_active, lemma_task_index, retry_delay, some_active, task_index, StatusView, TaskView,
    AUTO_RETRY_MAX_RETRIES, DATA_KEPT_NANOS,
};
use crate::window::{
    active_tasks, config_saved, edited, frame_begun, frame_end_of, image_expired, message_expired,
    other_tasks, start_state, EditView, FrameEnd,
};

verus! {

/// What holds of every task: an image that is kept has a time at which it goes, a
/// success has released its image, and a wait for a retry is the one that belongs to
/// the task.
pub open spec fn task_ok(t: TaskView) -> bool {
    &&& t.image_data.len() > 0 ==> t.data_expires_at is Some
    &&& t.status is Success ==> t.image_data.len() == 0 && t.retry_count == 0
    &&& t.status is Processing ==> t.image_data.len() == 0
    &&& t.status matches StatusView::Retrying { attempt, max_retries, wait_seconds, .. } ==> {
        &&& attempt == t.retry_count + 1
        &&& max_retries == AUTO_RETRY_MAX_RETRIES
        &&& 1 <= attempt <= AUTO_RETRY_MAX_RETRIES
        &&& wait_seconds == retry_delay(attempt)
    }
}

/// What holds of the state at all times: the numbers of the tasks ascend and are all
/// used up, each task is as it should be, and a message that is due to go is there.
pub open spec fn well_formed(s: StateView) -> bool {
    &&& forall|i: int, j: int|
        0 <= i < j < s.tasks.len() ==> (#[trigger] s.tasks[i]).id < (#[trigger] s.tasks[j]).id
    &&& forall|i: int| 0 <= i < s.tasks.len() ==> (#[trigger] s.tasks[i]).id < s.next_task_id
    &&& forall|i: int| 0 <= i < s.tasks.len() ==> task_ok(#[trigger] s.tasks[i])
    &&& s.status_clear_at is Some ==> s.status is Some
}

/// No task has had more automatic retries than there are.
pub open spec fn retries_bounded(s: StateView) -> bool {
    forall|i: int|
        0 <= i < s.tasks.len() ==> (#[trigger] s.tasks[i]).retry_count <= AUTO_RETRY_MAX_RETRIES
}

/// The state is as it should be at the start.
pub proof fn lemma_start_well_formed(config: ConfigView, history: Seq<RecordView>)
    ensures
        well_formed(start_state(config, history)),
        retries_bounded(start_state(config, history)),
{
}

/// Replacing one task by another of the same number keeps the state as it should be.
proof fn lemma_update_keeps(s: StateView, tasks: Seq<TaskView>, i: int, t: TaskView)
    requires
        well_formed(s),
        0 <= i < s.tasks.len(),
        t.id == s.tasks[i].id,
        task_ok(t),
        tasks == s.tasks.update(i, t),
    ensures
        well_formed(StateView { tasks, ..s }),
        well_formed(StateView { tasks, ..silent(s) }),
{
    assert forall|a: int, b: int| 0 <= a < b < tasks.len() implies (#[trigger] tasks[a]).id < (
    #[trigger] tasks[b]).id by {
        assert(s.tasks[a].id < s.tasks[b].id);
    }
    assert forall|k: int| 0 <= k < tasks.len() implies (#[trigger] tasks[k]).id
        < s.next_task_id by {
        assert(s.tasks[k].id < s.next_task_id);
    }
    assert forall|k: int| 0 <= k < tasks.len() implies task_ok(#[trigger] tasks[k]) by {
        assert(task_ok(s.tasks[k]));
    }
}

/// A change of one task that keeps its number and keeps it as it should be keeps the
/// state as it should be.
proof fn lemma_replaced_keeps(s: StateView, id: usize, change: spec_fn(TaskView) -> TaskView)
    requires
        well_formed(s),
        forall|t: TaskView| task_ok(t) ==> task_ok(#[trigger] change(t)) && change(t).id == t.id,
    ensures
        well_formed(StateView { tasks: replaced(s.tasks, id, change), ..s }),
{
    lemma_task_index(s.tasks, id);
    match task_index(s.tasks, id) {
        Some(i) => {
            assert(task_ok(s.tasks[i]));
            lemma_update_keeps(s, replaced(s.tasks, id, change), i, change(s.tasks[i]));
        },
        None => {},
    }
}

/// A new task keeps the state as it should be: its number is above all others.
pub proof fn lemma_spawn_keeps_well_formed(
    s: StateView,
    img: Seq<u8>,
    created_at: Seq<char>,
    now: u64,
)
    requires
        well_formed(s),
        s.next_task_id < usize::MAX,
    ensures
        well_formed(spawned(s, img, created_at, now)),
        retries_bounded(s) ==> retries_bounded(spawned(s, img, created_at, now)),
{
    let n = spawned(s, img, created_at, now);
    assert forall|a: int, b: int| 0 <= a < b < n.tasks.len() implies (#[trigger] n.tasks[a]).id < (
    #[trigger] n.tasks[b]).id by {
        assert(s.tasks[a].id < s.next_task_id);
        if b < s.tasks.len() {
            assert(s.tasks[a].id < s.tasks[b].id);
        }
    }
    assert forall|k: int| 0 <= k < n.tasks.len() implies (#[trigger] n.tasks[k]).id
        < n.next_task_id by {
        if k < s.tasks.len() {
            assert(s.tasks[k].id < s.next_task_id);
        }
    }
    assert forall|k: int| 0 <= k < n.tasks.len() implies task_ok(#[trigger] n.tasks[k]) by {
        if k < s.tasks.len() {
            assert(task_ok(s.tasks[k]));
        }
    }
}

/// A retry keeps the state as it should be.
pub proof fn lemma_retry_keeps_well_formed(
    s: StateView,
    id: usize,
    manual: bool,
    clip: Option<Seq<u8>>,
    now: u64,
)
    requires
        well_formed(s),
    ensures
        well_formed(retried(s, id, manual, clip, now)),
{
    lemma_task_index(s.tasks, id);
    let n = retried(s, id, manual, clip, now);
    if task_index(s.tasks, id) is Some && n.tasks != s.tasks {
        let i = task_index(s.tasks, id)->0;
        lemma_update_keeps(s, n.tasks, i, n.tasks[i]);
    }
}

/// A request for an upload keeps the state as it should be.
pub proof fn lemma_trigger_keeps_well_formed(
    s: StateView,
    clip: Option<Seq<u8>>,
    created_at: Seq<char>,
    now: u64,
)
    requires
        well_formed(s),
        clip is Some && !some_active(s.tasks) ==> s.next_task_id < usize::MAX,
    ensures
        well_formed(triggered(s, clip, created_at, now)),
        retries_bounded(s) ==> retries_bounded(triggered(s, clip, created_at, now)),
{
    if !some_active(s.tasks) && clip is Some {
        let base = at_tasks(StateView { last_url: None, ..silent(s) });
        assert(well_formed(base));
        lemma_spawn_keeps_well_formed(base, clip->0, created_at, now);
    }
}

/// Every event keeps the state as it should be.
pub proof fn lemma_event_keeps_well_formed(
    s: StateView,
    event: EventView,
    created_at: Seq<char>,
    now: u64,
)
    requires
        well_formed(s),
        event is WatchUpload ==> s.next_task_id < usize::MAX,
    ensures
        well_formed(after_event(s, event, created_at, now)),
{
    match event {
        EventView::TaskProgress(id, status) => {
            lemma_progress_keeps_well_formed(s, id, status, now);
        },
        EventView::WatchUpload(img) => {
            lemma_spawn_keeps_well_formed(at_tasks(s), img, created_at, now);
        },
        EventView::RetryTask(id) => {
            lemma_retry_keeps_well_formed(s, id, false, None, now);
        },
        _ => {},
    }
}

/// The progress of an upload keeps the state as it should be.
proof fn lemma_progress_keeps_well_formed(
    s: StateView,
    id: usize,
    status: StatusView,
    now: u64,
)
    requires
        well_formed(s),
    ensures
        well_formed(progressed(s, id, status, now)),
{
    lemma_task_index(s.tasks, id);
    match status {
        StatusView::Success(url, src) => {
            let change = |t: TaskView|
                TaskView { status, image_data: Seq::empty(), retry_count: 0, ..t };
            lemma_replaced_keeps(s, id, change);
        },
        StatusView::Failed { message, retryable } => {
            if retryable && retries_itself(s, id) {
                let n = scheduled(s, id, message, now);
                let i = task_index(s.tasks, id)->0;
                assert(task_ok(s.tasks[i]));
                lemma_update_keeps(s, n.tasks, i, n.tasks[i]);
            } else {
                lemma_replaced_keeps(s, id, |t: TaskView| TaskView { status, ..t });
            }
        },
        StatusView::Uploading => {
            lemma_replaced_keeps(s, id, |t: TaskView| TaskView { status, ..t });
        },
        StatusView::Processing => {
            lemma_replaced_keeps(
                s,
                id,
                |t: TaskView| TaskView { status, image_data: Seq::empty(), ..t },
            );
        },
        StatusView::Retrying { .. } => {},
    }
}

/// Time passing, a change of the settings and dropping tasks keep the state as it
/// should be.
pub proof fn lemma_window_keeps_well_formed(
    s: StateView,
    now: u64,
    change: EditView,
    keep: spec_fn(TaskView) -> bool,
)
    requires
        well_formed(s),
    ensures
        well_formed(frame_begun(s, now)),
        well_formed(edited(s, change)),
        well_formed(StateView { tasks: s.tasks.filter(keep), ..s }),
        retries_bounded(s) ==> retries_bounded(frame_begun(s, now)),
        retries_bounded(s) ==> retries_bounded(edited(s, change)),
        retries_bounded(s) ==> retries_bounded(StateView { tasks: s.tasks.filter(keep), ..s }),
{
    let n = frame_begun(s, now);
    assert forall|k: int| 0 <= k < n.tasks.len() implies task_ok(#[trigger] n.tasks[k]) && n.tasks[k].id
        == s.tasks[k].id && n.tasks[k].retry_count == s.tasks[k].retry_count by {
        assert(task_ok(s.tasks[k]));
    }
    assert forall|a: int, b: int| 0 <= a < b < n.tasks.len() implies (#[trigger] n.tasks[a]).id < (
    #[trigger] n.tasks[b]).id by {
        assert(s.tasks[a].id < s.tasks[b].id);
        assert(n.tasks[a].id == s.tasks[a].id && n.tasks[b].id == s.tasks[b].id);
    }
    assert forall|k: int| 0 <= k < n.tasks.len() implies (#[trigger] n.tasks[k]).id
        < n.next_task_id by {
        assert(s.tasks[k].id < s.next_task_id);
    }
    lemma_filter_keeps(s.tasks, keep, s.next_task_id);
}

/// What holds of a list of tasks in ascending order holds of what is left of it.
pub proof fn lemma_filter_keeps(tasks: Seq<TaskView>, keep: spec_fn(TaskView) -> bool, bound: usize)
    requires
        forall|i: int, j: int|
            0 <= i < j < tasks.len() ==> (#[trigger] tasks[i]).id < (#[trigger] tasks[j]).id,
        forall|i: int| 0 <= i < tasks.len() ==> (#[trigger] tasks[i]).id < bound,
    ensures
        forall|i: int, j: int|
            0 <= i < j < tasks.filter(keep).len() ==> (#[trigger] tasks.filter(keep)[i]).id < (
            #[trigger] tasks.filter(keep)[j]).id,
        forall|i: int|
            0 <= i < tasks.filter(keep).len() ==> tasks.contains(#[trigger] tasks.filter(keep)[i]),
        forall|i: int|
            0 <= i < tasks.filter(keep).len() ==> (#[trigger] tasks.filter(keep)[i]).id < bound,
    decreases tasks.len(),
{
    reveal(Seq::filter);
    if tasks.len() > 0 {
        let head = tasks.drop_last();
        let last = tasks.last();
        let left = head.filter(keep);
        let out = tasks.filter(keep);
        assert forall|i: int, j: int| 0 <= i < j < head.len() implies (#[trigger] head[i]).id < (
        #[trigger] head[j]).id by {
            assert(tasks[i].id < tasks[j].id);
        }
        assert forall|i: int| 0 <= i < head.len() implies (#[trigger] head[i]).id < last.id by {
            assert(tasks[i].id < tasks[tasks.len() - 1].id);
        }
        lemma_filter_keeps(head, keep, last.id);
        assert(last.id < bound);
        assert forall|i: int| 0 <= i < left.len() implies tasks.contains(#[trigger] left[i]) by {
            assert(head.contains(left[i]));
            let k = choose|k: int| 0 <= k < head.len() && head[k] == left[i];
            assert(tasks[k] == left[i]);
        }
        assert(tasks.contains(last)) by {
            assert(tasks[tasks.len() - 1] == last);
        }
    }
}

/// A task gets no more automatic retries than there are: no event raises the count
/// above the bound, as long as a retry comes only to a task that waits for one.
pub proof fn lemma_events_keep_retries_bounded(
    s: StateView,
    event: EventView,
    created_at: Seq<char>,
    now: u64,
)
    requires
        well_formed(s),
        retries_bounded(s),
        event is WatchUpload ==> s.next_task_id < usize::MAX,
        event matches EventView::RetryTask(id) ==> (task_index(s.tasks, id) matches Some(i)
            ==> s.tasks[i].status is Retrying),
    ensures
        retries_bounded(after_event(s, event, created_at, now)),
{
    match event {
        EventView::TaskProgress(id, _) => {
            lemma_task_index(s.tasks, id);
        },
        EventView::WatchUpload(img) => {
            lemma_spawn_keeps_well_formed(at_tasks(s), img, created_at, now);
        },
        EventView::RetryTask(id) => {
            lemma_task_index(s.tasks, id);
            if task_index(s.tasks, id) is Some {
                assert(task_ok(s.tasks[task_index(s.tasks, id)->0]));
            }
        },
        _ => {},
    }
}

/// The place of a task does not move when a task is changed and keeps its number.
proof fn lemma_index_stays(tasks: Seq<TaskView>, id: usize, i: int, t: TaskView)
    requires
        0 <= i < tasks.len(),
        t.id == tasks[i].id,
    ensures
        task_index(tasks.update(i, t), id) == task_index(tasks, id),
{
    let after = tasks.update(i, t);
    lemma_task_index(tasks, id);
    lemma_task_index(after, id);
    assert(forall|k: int| 0 <= k < tasks.len() ==> after[k].id == tasks[k].id);
    match (task_index(tasks, id), task_index(after, id)) {
        (Some(a), Some(b)) => {
            assert(after[a].id == id);
            assert(tasks[b].id == id);
        },
        (Some(a), None) => {
            assert(after[a].id == id);
        },
        (None, Some(b)) => {
            assert(tasks[b].id == id);
        },
        (None, None) => {},
    }
}

/// A temporary failure, with what it makes of the task.
pub open spec fn failed_with(s: StateView, id: usize, message: Seq<char>, now: u64) -> StateView {
    progressed(s, id, StatusView::Failed { message, retryable: true }, now)
}

/// An upload that keeps failing for passing reasons is tried again by itself twice,
/// after two seconds and after five, and then has failed for good.
pub proof fn lemma_two_automatic_retries(
    s: StateView,
    id: usize,
    messages: (Seq<char>, Seq<char>, Seq<char>),
    images: (Seq<u8>, Seq<u8>),
    times: (u64, u64, u64, u64, u64),
)
    requires
        flag_or(s.config.auto_retry, true),
        task_index(s.tasks, id) matches Some(i) && s.tasks[i].retry_count == 0,
    ensures
        ({
            let i = task_index(s.tasks, id)->0;
            let first = StatusView::Failed { message: messages.0, retryable: true };
            let second = StatusView::Failed { message: messages.1, retryable: true };
            let third = StatusView::Failed { message: messages.2, retryable: true };
            let s1 = progressed(s, id, first, times.0);
            let s2 = retried(s1, id, false, Some(images.0), times.1);
            let s3 = progressed(s2, id, second, times.2);
            let s4 = retried(s3, id, false, Some(images.1), times.3);
            let s5 = progressed(s4, id, third, times.4);
            &&& event_actions(s, EventView::TaskProgress(id, first)) == seq![
                ActionView::RetryAfter(id, 2),
            ]
            &&& s1.tasks[i].status is Retrying
            &&& s2.tasks[i].status is Uploading
            &&& retry_job(s1, id, Some(images.0)) is Some
            &&& event_actions(s2, EventView::TaskProgress(id, second)) == seq![
                ActionView::RetryAfter(id, 5),
            ]
            &&& s3.tasks[i].status is Retrying
            &&& s4.tasks[i].status is Uploading
            &&& retry_job(s3, id, Some(images.1)) is Some
            &&& event_actions(s4, EventView::TaskProgress(id, third)) == Seq::<ActionView>::empty()
            &&& s5.tasks[i].status == third
            &&& s5.status == Some((true, messages.2))
        }),
{
    let i = task_index(s.tasks, id)->0;
    lemma_task_index(s.tasks, id);
    let s1 = failed_with(s, id, messages.0, times.0);
    lemma_index_stays(s.tasks, id, i, s1.tasks[i]);
    assert(s1.tasks =~= s.tasks.update(i, s1.tasks[i]));
    let s2 = retried(s1, id, false, Some(images.0), times.1);
    lemma_index_stays(s1.tasks, id, i, s2.tasks[i]);
    assert(s2.tasks =~= s1.tasks.update(i, s2.tasks[i]));
    let s3 = failed_with(s2, id, messages.1, times.2);
    lemma_index_stays(s2.tasks, id, i, s3.tasks[i]);
    assert(s3.tasks =~= s2.tasks.update(i, s3.tasks[i]));
    let s4 = retried(s3, id, false, Some(images.1), times.3);
    lemma_index_stays(s3.tasks, id, i, s4.tasks[i]);
    assert(s4.tasks =~= s3.tasks.update(i, s4.tasks[i]));
}

/// A failure that is not a passing one is never tried again by itself, nor is any
/// failure where automatic retries are switched off.
pub proof fn lemma_no_automatic_retry(
    s: StateView,
    id: usize,
    message: Seq<char>,
    retryable: bool,
    now: u64,
)
    requires
        !retryable || !flag_or(s.config.auto_retry, true),
    ensures
        event_actions(
            s,
            EventView::TaskProgress(id, StatusView::Failed { message, retryable }),
        ) == Seq::<ActionView>::empty(),
        task_index(s.tasks, id) matches Some(i) ==> progressed(
            s,
            id,
            StatusView::Failed { message, retryable },
            now,
        ).tasks[i].status == (StatusView::Failed { message, retryable }),
{
    lemma_task_index(s.tasks, id);
}

/// Every task can be tried again by hand, whatever its failure was: with its own image
/// or one on the clipboard it starts over, with all its automatic retries before it.
pub proof fn lemma_retry_by_hand(s: StateView, id: usize, clip: Option<Seq<u8>>, now: u64)
    requires
        task_index(s.tasks, id) matches Some(i) && (s.tasks[i].image_data.len() > 0
            || clip is Some),
    ensures
        ({
            let i = task_index(s.tasks, id)->0;
            let n = retried(s, id, true, clip, now);
            &&& retry_job(s, id, clip) is Some
            &&& n.tasks[i].status is Uploading
            &&& n.tasks[i].retry_count == 0
        }),
{
    lemma_task_index(s.tasks, id);
}

/// While an upload is under way, asking for another changes nothing.
pub proof fn lemma_one_request_at_a_time(
    s: StateView,
    clip: Option<Seq<u8>>,
    created_at: Seq<char>,
    now: u64,
)
    requires
        some_active(s.tasks),
    ensures
        triggered(s, clip, created_at, now) == s,
        after_event(s, EventView::TrayUpload, created_at, now) == s,
        event_actions(s, EventView::TrayUpload) == Seq::<ActionView>::empty(),
{
}

/// An upload that was asked for is under way at once, under a number of its own, and no
/// other task is touched.
pub proof fn lemma_request_starts_upload(
    s: StateView,
    img: Seq<u8>,
    created_at: Seq<char>,
    now: u64,
)
    requires
        well_formed(s),
        !some_active(s.tasks),
        s.next_task_id < usize::MAX,
    ensures
        ({
            let n = triggered(s, Some(img), created_at, now);
            &&& n.tasks.drop_last() == s.tasks
            &&& n.tasks.last().status is Uploading
            &&& n.tasks.last().image_data == img
            &&& some_active(n.tasks)
            &&& forall|i: int|
                0 <= i < s.tasks.len() ==> (#[trigger] s.tasks[i]).id != n.tasks.last().id
        }),
{
    let n = triggered(s, Some(img), created_at, now);
    assert(n.tasks.drop_last() =~= s.tasks);
    assert(is_active(n.tasks[n.tasks.len() - 1].status));
}

/// A passing message is there for three seconds and then gone; a message that stays is
/// not taken away by time.
pub proof fn lemma_messages_and_time(
    s: StateView,
    is_err: bool,
    msg: Seq<char>,
    now: u64,
    later: u64,
)
    requires
        clock_in_range(now),
    ensures
        later >= now + STATUS_KEPT_NANOS ==> frame_begun(
            passing(s, now, is_err, msg),
            later,
        ).status is None,
        later < now + STATUS_KEPT_NANOS ==> frame_begun(
            passing(s, now, is_err, msg),
            later,
        ).status == Some((is_err, msg)),
        frame_begun(sticky(s, is_err, msg), later).status == Some((is_err, msg)),
{
}

/// The image of a task is kept for five minutes after the task was made, and is
/// released in the first frame after that.
pub proof fn lemma_image_kept_five_minutes(
    s: StateView,
    img: Seq<u8>,
    created_at: Seq<char>,
    now: u64,
    later: u64,
)
    requires
        clock_in_range(now),
    ensures
        ({
            let n = frame_begun(spawned(s, img, created_at, now), later);
            n.tasks.last().image_data == (if later > now + DATA_KEPT_NANOS {
                Seq::empty()
            } else {
                img
            })
        }),
{
    let b = message_expired(spawned(s, img, created_at, now), later);
    let n = frame_begun(spawned(s, img, created_at, now), later);
    assert(n.tasks.last() == image_expired(b.tasks.last(), later));
    if later > now + DATA_KEPT_NANOS && img.len() == 0 {
        assert(img =~= Seq::empty());
    }
}

/// Switching the watch twice leaves it as it was.
pub proof fn lemma_watch_switched_twice(s: StateView)
    ensures
        flag_or(watch_switched(s).config.auto_watch, false) == !flag_or(s.config.auto_watch, false),
        watch_switched(s).watch_active == flag_or(watch_switched(s).config.auto_watch, false),
        flag_or(watch_switched(watch_switched(s)).config.auto_watch, false) == flag_or(
            s.config.auto_watch,
            false,
        ),
{
}

/// A success is made known: its link is the last one, the message says so, the link is
/// copied exactly where copying is switched on, a notification with the link is shown
/// exactly where notifying is switched on, and the history is read again.
pub proof fn lemma_success_is_made_known(
    s: StateView,
    id: usize,
    url: Seq<char>,
    src: Seq<char>,
    created_at: Seq<char>,
    now: u64,
)
    ensures
        ({
            let event = EventView::TaskProgress(id, StatusView::Success(url, src));
            let n = after_event(s, event, created_at, now);
            let actions = event_actions(s, event);
            let copies = flag_or(s.config.copy_to_clipboard, false);
            &&& n.last_url == Some(url)
            &&& n.status == Some((false, success_message(copies)))
            &&& actions.contains(ActionView::CopyText(url)) <==> copies
            &&& actions.contains(ActionView::Notify("上传成功"@, url)) <==> flag_or(
                s.config.notify_on_success,
                false,
            )
            &&& actions.contains(ActionView::ReloadHistory)
        }),
{
    let actions = event_actions(
        s,
        EventView::TaskProgress(id, StatusView::Success(url, src)),
    );
    let copies = flag_or(s.config.copy_to_clipboard, false);
    let notifies = flag_or(s.config.notify_on_success, false);
    assert(actions.last() == ActionView::ReloadHistory);
    if copies {
        assert(actions[0] == ActionView::CopyText(url));
    }
    if notifies {
        assert(actions[actions.len() - 2] == ActionView::Notify("上传成功"@, url));
    }
    if !copies && !notifies {
        assert(actions =~= seq![ActionView::ReloadHistory]);
    }
}

/// An image that the watch finds is uploaded, in a task of its own that stands at the
/// end of the list on the screen.
pub proof fn lemma_watch_starts_upload(
    s: StateView,
    img: Seq<u8>,
    created_at: Seq<char>,
    now: u64,
)
    ensures
        ({
            let event = EventView::WatchUpload(img);
            let n = after_event(s, event, created_at, now);
            &&& event_actions(s, event) == seq![ActionView::Upload(s.next_task_id, img)]
            &&& n.tasks.drop_last() == s.tasks
            &&& n.tasks.last().id == s.next_task_id
            &&& n.tasks.last().status is Uploading
            &&& n.tasks.last().image_data == img
            &&& n.active_tab == AppTab::Activity
            &&& n.bottom_tab == BottomTab::Tasks
        }),
{
    let n = after_event(s, EventView::WatchUpload(img), created_at, now);
    assert(n.tasks.drop_last() =~= s.tasks);
}

/// A change of the settings counts as unsaved until the settings are written; a write
/// that fails leaves it so and says so for good.
pub proof fn lemma_unsaved_until_written(
    s: StateView,
    change: EditView,
    error: Seq<char>,
    now: u64,
    later: u64,
)
    ensures
        edited(s, change).config_dirty,
        !config_saved(edited(s, change), None, now).config_dirty,
        config_saved(edited(s, change), None, now).config == edited(s, change).config,
        ({
            let failed = config_saved(edited(s, change), Some(error), now);
            &&& failed.config_dirty
            &&& frame_begun(failed, later).status == Some((true, "保存失败: "@ + error))
        }),
{
}

/// Clearing the list drops no upload that is under way and leaves nothing else.
pub proof fn lemma_clearing_keeps_active(tasks: Seq<TaskView>)
    ensures
        forall|i: int|
            0 <= i < tasks.len() && is_active((#[trigger] tasks[i]).status) ==> active_tasks(
                tasks,
            ).contains(tasks[i]),
        forall|i: int|
            0 <= i < active_tasks(tasks).len() ==> is_active(
                (#[trigger] active_tasks(tasks)[i]).status,
            ),
{
    let p = |t: TaskView| is_active(t.status);
    assert forall|i: int| 0 <= i < tasks.len() && is_active(
        (#[trigger] tasks[i]).status,
    ) implies active_tasks(tasks).contains(tasks[i]) by {
        tasks.lemma_filter_contains(p, i);
    }
    assert forall|i: int| 0 <= i < active_tasks(tasks).len() implies is_active(
        (#[trigger] active_tasks(tasks)[i]).status,
    ) by {
        tasks.lemma_filter_pred(p, i);
    }
}

/// Removing a task leaves none of its number and keeps every other.
pub proof fn lemma_removing_keeps_others(tasks: Seq<TaskView>, id: usize)
    ensures
        task_index(other_tasks(tasks, id), id) is None,
        forall|i: int|
            0 <= i < tasks.len() && (#[trigger] tasks[i]).id != id ==> other_tasks(
                tasks,
                id,
            ).contains(tasks[i]),
{
    let p = |t: TaskView| t.id != id;
    lemma_task_index(other_tasks(tasks, id), id);
    assert forall|i: int| 0 <= i < other_tasks(tasks, id).len() implies (#[trigger] other_tasks(
        tasks,
        id,
    )[i]).id != id by {
        tasks.lemma_filter_pred(p, i);
    }
    assert forall|i: int| 0 <= i < tasks.len() && (#[trigger] tasks[i]).id != id implies other_tasks(
        tasks,
        id,
    ).contains(tasks[i]) by {
        tasks.lemma_filter_contains(p, i);
    }
}

/// A task that was removed while it waited is not tried again: its retry does nothing.
pub proof fn lemma_removed_task_stays_gone(
    s: StateView,
    id: usize,
    created_at: Seq<char>,
    now: u64,
)
    ensures
        ({
            let n = StateView { tasks: other_tasks(s.tasks, id), ..s };
            &&& after_event(n, EventView::RetryTask(id), created_at, now) == n
            &&& event_actions(n, EventView::RetryTask(id)) == Seq::<ActionView>::empty()
        }),
{
    lemma_removing_keeps_others(s.tasks, id);
}

/// A request to quit is obeyed in the same frame, whatever the settings say of closing,
/// and no event takes it back.
pub proof fn lemma_quit_is_obeyed(
    s: StateView,
    event: EventView,
    created_at: Seq<char>,
    now: u64,
    close_requested: bool,
)
    ensures
        frame_end_of(after_event(s, EventView::TrayQuit, created_at, now), close_requested)
            == FrameEnd::Quit,
        s.quit_requested ==> after_event(s, event, created_at, now).quit_requested,
{
}

/// Closing the window hides it where the settings keep the program in the tray, and is
/// let through where they do not.
pub proof fn lemma_closing(s: StateView)
    requires
        !s.quit_requested,
    ensures
        frame_end_of(s, true) == FrameEnd::Hide <==> flag_or(s.config.close_to_tray, true),
        frame_end_of(s, false) == FrameEnd::Draw,
{
}

} // verus!
