//! The program together with what it has set going: the uploads under way and the
//! waits before retries.
use vstd::prelude::*;

use crate::config::{editable, ConfigView};
use crate::events::{after_event, event_actions, progressed, watch_switched, ActionView, EventView};
use crate::laws::{
    lemma_clearing_keeps_active, lemma_event_keeps_well_formed, lemma_events_keep_retries_bounded,
    lemma_filter_keeps, lemma_removing_keeps_others, lemma_retry_keeps_well_formed,
    lemma_start_well_formed, lemma_trigger_keeps_well_formed, lemma_window_keeps_well_formed,
    retries_bounded, task_ok, well_formed,
};
use crate::state::{
    at_tasks, needs_clipboard, next_attempt, passing, retried, retries_itself, retry_job, spawned,
    sticky, triggered, AppTab, BottomTab, RecordView, SettingsTab, StateView,
};
use crate::task::{
    is_active, lemma_task_index, retry_delay, some_active, task_index, StatusView, TaskView,
    AUTO_RETRY_MAX_RETRIES,
};
use crate::window::{
    active_tasks, config_saved, copy_told, edited, frame_begun, other_records, other_tasks,
    start_state, CopySource, EditView,
};

verus! {

/// The state of the program, the tasks that have an upload under way, and the tasks
/// that have a wait before a retry under way.
pub struct SystemView {
    pub state: StateView,
    pub uploads: Set<usize>,
    pub waits: Set<usize>,
}

/// What can happen to the program.
pub enum Step {
    /// The upload of a task has come this far.
    Progress(usize, StatusView),
    /// The wait of a task is over, with this image on the clipboard, if there is one.
    WaitOver(usize, Option<Seq<u8>>),
    /// The watch has found an image.
    Watch(Seq<u8>),
    /// An upload is asked for, with this image on the clipboard, if there is one.
    Request(Option<Seq<u8>>),
    /// A retry of a task is asked for, with this image on the clipboard, if there is one.
    RetryByHand(usize, Option<Seq<u8>>),
    /// A task is removed.
    Remove(usize),
    /// The tasks that are over are dropped.
    ClearFinished,
    /// A frame begins.
    Frame,
    /// A setting is changed.
    Edit(EditView),
    /// The watch is switched.
    SwitchWatch,
    /// Quitting is asked for.
    Quit,
    /// The settings were written, or could not be for this error.
    Saved(Option<Seq<char>>),
    /// A link was to be copied, and was or was not.
    Copied(CopySource, bool),
    /// A message is shown, with whether it tells of an error and whether it passes.
    Say(Seq<char>, bool, bool),
    /// The history was read again.
    HistoryRead(Seq<RecordView>),
    /// The history is emptied.
    ClearHistory,
    /// A record of the history is deleted.
    DeleteRecord(i64),
    /// The settings page is on the screen.
    OpenSettings,
    /// A page is chosen.
    SelectPage(AppTab),
    /// A part of the settings is chosen.
    SelectSettings(SettingsTab),
    /// A list is chosen.
    SelectList(BottomTab),
}

/// Whether a file is on its way or its answer is waited for.
pub open spec fn in_flight(status: StatusView) -> bool {
    status is Uploading || status is Processing
}

/// Whether a step can happen: an upload and a wait end only where they are under way,
/// and the cards offer a retry only of a failed task and a removal only of one that
/// has no upload under way.
pub open spec fn can_happen(sys: SystemView, step: Step) -> bool {
    let s = sys.state;
    match step {
        Step::Progress(id, status) => sys.uploads.contains(id) && (status is Processing
            || status is Success || status is Failed),
        Step::WaitOver(id, _) => sys.waits.contains(id),
        Step::Watch(_) => s.next_task_id < usize::MAX,
        Step::Request(clip) => clip is Some && !some_active(s.tasks) ==> s.next_task_id
            < usize::MAX,
        Step::RetryByHand(id, _) => task_index(s.tasks, id) matches Some(i)
            && s.tasks[i].status is Failed,
        Step::Remove(id) => task_index(s.tasks, id) matches Some(i) && !in_flight(
            s.tasks[i].status,
        ),
        _ => true,
    }
}

/// The state of the program after a step.
pub open spec fn state_after(
    s: StateView,
    step: Step,
    created_at: Seq<char>,
    now: u64,
) -> StateView {
    match step {
        Step::Progress(id, status) => progressed(s, id, status, now),
        Step::WaitOver(id, clip) => retried(s, id, false, clip, now),
        Step::Watch(img) => spawned(at_tasks(s), img, created_at, now),
        Step::Request(clip) => triggered(s, clip, created_at, now),
        Step::RetryByHand(id, clip) => retried(s, id, true, clip, now),
        Step::Remove(id) => StateView { tasks: other_tasks(s.tasks, id), ..s },
        Step::ClearFinished => StateView { tasks: active_tasks(s.tasks), ..s },
        Step::Frame => frame_begun(s, now),
        Step::Edit(change) => edited(s, change),
        Step::SwitchWatch => watch_switched(s),
        Step::Quit => StateView { quit_requested: true, ..s },
        Step::Saved(error) => config_saved(s, error, now),
        Step::Copied(source, copied) => copy_told(s, source, copied, now),
        Step::Say(msg, is_err, passes) => if passes {
            passing(s, now, is_err, msg)
        } else {
            sticky(s, is_err, msg)
        },
        Step::HistoryRead(history) => StateView { history, ..s },
        Step::ClearHistory => StateView { history: Seq::empty(), ..s },
        Step::DeleteRecord(id) => StateView { history: other_records(s.history, id), ..s },
        Step::OpenSettings => StateView { config: editable(s.config), ..s },
        Step::SelectPage(tab) => StateView { active_tab: tab, ..s },
        Step::SelectSettings(tab) => StateView { settings_tab: tab, ..s },
        Step::SelectList(tab) => StateView { bottom_tab: tab, ..s },
    }
}

/// The task whose upload a step starts, if it starts one.
pub open spec fn upload_started(s: StateView, step: Step) -> Option<usize> {
    match step {
        Step::Watch(_) => Some(s.next_task_id),
        Step::Request(clip) => if clip is Some && !some_active(s.tasks) {
            Some(s.next_task_id)
        } else {
            None
        },
        Step::WaitOver(id, clip) | Step::RetryByHand(id, clip) => if retry_job(
            s,
            id,
            clip,
        ) is Some {
            Some(id)
        } else {
            None
        },
        _ => None,
    }
}

/// The task whose upload a step ends, if it ends one.
pub open spec fn upload_ended(step: Step) -> Option<usize> {
    match step {
        Step::Progress(id, status) => if in_flight(status) {
            None
        } else {
            Some(id)
        },
        _ => None,
    }
}

/// The task whose wait a step starts, if it starts one.
pub open spec fn wait_started(s: StateView, step: Step) -> Option<usize> {
    match step {
        Step::Progress(id, StatusView::Failed { retryable, .. }) => if retryable
            && retries_itself(s, id) {
            Some(id)
        } else {
            None
        },
        _ => None,
    }
}

/// A set with one number taken out and another put in, where there are such.
pub open spec fn exchanged(set: Set<usize>, out: Option<usize>, new: Option<usize>) -> Set<usize> {
    Set::new(|id: usize| Some(id) == new || (set.contains(id) && Some(id) != out))
}

/// The program after a step.
pub open spec fn stepped(
    sys: SystemView,
    step: Step,
    created_at: Seq<char>,
    now: u64,
) -> SystemView {
    SystemView {
        state: state_after(sys.state, step, created_at, now),
        uploads: exchanged(sys.uploads, upload_ended(step), upload_started(sys.state, step)),
        waits: exchanged(
            sys.waits,
            match step {
                Step::WaitOver(id, _) => Some(id),
                _ => None,
            },
            wait_started(sys.state, step),
        ),
    }
}

/// The program after a number of steps from its start, each with the time of day and
/// the moment at which it happens.
pub open spec fn run(
    config: ConfigView,
    history: Seq<RecordView>,
    steps: Seq<(Step, Seq<char>, u64)>,
) -> SystemView
    decreases steps.len(),
{
    if steps.len() == 0 {
        SystemView {
            state: start_state(config, history),
            uploads: Set::empty(),
            waits: Set::empty(),
        }
    } else {
        let (step, created_at, now) = steps.last();
        stepped(run(config, history, steps.drop_last()), step, created_at, now)
    }
}

/// Whether each of a number of steps from the start can happen when it comes.
pub open spec fn possible(
    config: ConfigView,
    history: Seq<RecordView>,
    steps: Seq<(Step, Seq<char>, u64)>,
) -> bool
    decreases steps.len(),
{
    steps.len() == 0 || (possible(config, history, steps.drop_last()) && can_happen(
        run(config, history, steps.drop_last()),
        steps.last().0,
    ))
}

/// Whether a task of that number is in the list.
pub open spec fn listed(tasks: Seq<TaskView>, id: usize) -> bool {
    exists|k: int| 0 <= k < tasks.len() && (#[trigger] tasks[k]).id == id
}

/// What is under way and what the list says agree: the tasks with an upload under way
/// are those whose file is on its way or whose answer is waited for, and a task with a
/// wait under way waits for its retry, unless it was removed.
pub open spec fn agrees(sys: SystemView) -> bool {
    let tasks = sys.state.tasks;
    &&& forall|i: int|
        0 <= i < tasks.len() ==> (in_flight((#[trigger] tasks[i]).status)
            <==> sys.uploads.contains(tasks[i].id))
    &&& forall|i: int|
        0 <= i < tasks.len() && sys.waits.contains((#[trigger] tasks[i]).id)
            ==> tasks[i].status is Retrying
    &&& forall|id: usize| #[trigger] sys.uploads.contains(id) ==> listed(tasks, id)
    &&& forall|id: usize| #[trigger] sys.waits.contains(id) ==> id < sys.state.next_task_id
}

/// What holds of the program at all times.
pub open spec fn system_ok(sys: SystemView) -> bool {
    &&& well_formed(sys.state)
    &&& retries_bounded(sys.state)
    &&& agrees(sys)
}

/// The place of a task is the one place that holds its number.
proof fn lemma_only_place(s: StateView, i: int)
    requires
        well_formed(s),
        0 <= i < s.tasks.len(),
    ensures
        task_index(s.tasks, s.tasks[i].id) == Some(i),
        forall|k: int| 0 <= k < s.tasks.len() && k != i ==> (#[trigger] s.tasks[k]).id != s.tasks[i].id,
{
    lemma_task_index(s.tasks, s.tasks[i].id);
    assert forall|k: int| 0 <= k < s.tasks.len() && k != i implies (#[trigger] s.tasks[k]).id
        != s.tasks[i].id by {
        if k < i {
            assert(s.tasks[k].id < s.tasks[i].id);
        } else {
            assert(s.tasks[i].id < s.tasks[k].id);
        }
    }
}

/// Where one task moves and what is under way moves with it, the two still agree.
proof fn lemma_one_task_moves(before: SystemView, after: SystemView, i: int)
    requires
        system_ok(before),
        0 <= i < before.state.tasks.len(),
        after.state.tasks == before.state.tasks.update(i, after.state.tasks[i]),
        after.state.tasks[i].id == before.state.tasks[i].id,
        after.state.next_task_id == before.state.next_task_id,
        forall|id: usize|
            id != before.state.tasks[i].id ==> (#[trigger] after.uploads.contains(id)
                <==> before.uploads.contains(id)),
        forall|id: usize|
            id != before.state.tasks[i].id ==> (#[trigger] after.waits.contains(id)
                ==> before.waits.contains(id)),
        in_flight(after.state.tasks[i].status) <==> after.uploads.contains(before.state.tasks[i].id),
        after.waits.contains(before.state.tasks[i].id) ==> after.state.tasks[i].status is Retrying,
    ensures
        agrees(after),
{
    let old_tasks = before.state.tasks;
    let new_tasks = after.state.tasks;
    lemma_only_place(before.state, i);
    assert forall|k: int| 0 <= k < new_tasks.len() implies (in_flight(
        (#[trigger] new_tasks[k]).status,
    ) <==> after.uploads.contains(new_tasks[k].id)) by {
        if k != i {
            assert(new_tasks[k] == old_tasks[k]);
        }
    }
    assert forall|k: int|
        0 <= k < new_tasks.len() && after.waits.contains(
            (#[trigger] new_tasks[k]).id,
        ) implies new_tasks[k].status is Retrying by {
        if k != i {
            assert(new_tasks[k] == old_tasks[k]);
        }
    }
    assert forall|id: usize| #[trigger] after.uploads.contains(id) implies listed(new_tasks, id) by {
        if id == old_tasks[i].id {
            assert(new_tasks[i].id == id);
        } else {
            assert(before.uploads.contains(id));
            let k = choose|k: int| 0 <= k < old_tasks.len() && (#[trigger] old_tasks[k]).id == id;
            assert(new_tasks[k].id == id);
        }
    }
    assert forall|id: usize| #[trigger] after.waits.contains(id) implies id
        < after.state.next_task_id by {
        if id == old_tasks[i].id {
            assert(old_tasks[i].id < before.state.next_task_id);
        } else {
            assert(before.waits.contains(id));
        }
    }
}

/// A new task with its upload under way agrees with the rest.
proof fn lemma_task_joins(before: SystemView, after: SystemView)
    requires
        system_ok(before),
        before.state.next_task_id < usize::MAX,
        after.state.tasks.len() == before.state.tasks.len() + 1,
        after.state.tasks.drop_last() == before.state.tasks,
        after.state.tasks.last().id == before.state.next_task_id,
        after.state.tasks.last().status is Uploading,
        after.state.next_task_id == before.state.next_task_id + 1,
        after.uploads == exchanged(before.uploads, None, Some(before.state.next_task_id)),
        forall|id: usize| #[trigger] after.waits.contains(id) ==> before.waits.contains(id),
    ensures
        agrees(after),
{
    let old_tasks = before.state.tasks;
    let new_tasks = after.state.tasks;
    let n = old_tasks.len() as int;
    assert forall|k: int| 0 <= k < n implies new_tasks[k] == #[trigger] old_tasks[k] by {
        assert(new_tasks.drop_last()[k] == new_tasks[k]);
    }
    assert(new_tasks[n] == new_tasks.last());
    assert forall|k: int| 0 <= k < new_tasks.len() implies (in_flight(
        (#[trigger] new_tasks[k]).status,
    ) <==> after.uploads.contains(new_tasks[k].id)) by {
        if k < n {
            assert(new_tasks[k] == old_tasks[k]);
            assert(old_tasks[k].id < before.state.next_task_id);
        }
    }
    assert forall|k: int|
        0 <= k < new_tasks.len() && after.waits.contains(
            (#[trigger] new_tasks[k]).id,
        ) implies new_tasks[k].status is Retrying by {
        if k < n {
            assert(new_tasks[k] == old_tasks[k]);
        } else {
            assert(before.waits.contains(new_tasks[k].id));
        }
    }
    assert forall|id: usize| #[trigger] after.uploads.contains(id) implies listed(new_tasks, id) by {
        if id == before.state.next_task_id {
            assert(new_tasks[n].id == id);
        } else {
            assert(before.uploads.contains(id));
            let k = choose|k: int| 0 <= k < old_tasks.len() && (#[trigger] old_tasks[k]).id == id;
            assert(new_tasks[k].id == id);
        }
    }
    assert forall|id: usize| #[trigger] after.waits.contains(id) implies id
        < after.state.next_task_id by {
        assert(before.waits.contains(id));
    }
}

/// Where tasks without an upload under way leave the list, the rest still agrees.
proof fn lemma_tasks_leave(before: SystemView, after: SystemView)
    requires
        system_ok(before),
        forall|k: int|
            0 <= k < after.state.tasks.len() ==> before.state.tasks.contains(
                #[trigger] after.state.tasks[k],
            ),
        forall|k: int|
            0 <= k < before.state.tasks.len() && in_flight(
                (#[trigger] before.state.tasks[k]).status,
            ) ==> after.state.tasks.contains(before.state.tasks[k]),
        after.state.next_task_id == before.state.next_task_id,
        after.uploads == before.uploads,
        after.waits == before.waits,
    ensures
        agrees(after),
{
    let old_tasks = before.state.tasks;
    let new_tasks = after.state.tasks;
    assert forall|k: int| 0 <= k < new_tasks.len() implies (in_flight(
        (#[trigger] new_tasks[k]).status,
    ) <==> after.uploads.contains(new_tasks[k].id)) && (after.waits.contains(new_tasks[k].id)
        ==> new_tasks[k].status is Retrying) by {
        assert(old_tasks.contains(new_tasks[k]));
        let j = choose|j: int| 0 <= j < old_tasks.len() && old_tasks[j] == new_tasks[k];
        assert(old_tasks[j].id == new_tasks[k].id);
    }
    assert forall|id: usize| #[trigger] after.uploads.contains(id) implies listed(new_tasks, id) by {
        assert(before.uploads.contains(id));
        let k = choose|k: int| 0 <= k < old_tasks.len() && (#[trigger] old_tasks[k]).id == id;
        assert(in_flight(old_tasks[k].status));
        assert(new_tasks.contains(old_tasks[k]));
        let j = choose|j: int| 0 <= j < new_tasks.len() && new_tasks[j] == old_tasks[k];
        assert(new_tasks[j].id == id);
    }
    assert forall|id: usize| #[trigger] after.waits.contains(id) implies id
        < after.state.next_task_id by {
        assert(before.waits.contains(id));
    }
}

/// Where the numbers and stages of the tasks stay, the two still agree.
proof fn lemma_tasks_stay(before: SystemView, after: SystemView)
    requires
        agrees(before),
        after.state.tasks.len() == before.state.tasks.len(),
        forall|k: int|
            0 <= k < after.state.tasks.len() ==> (#[trigger] after.state.tasks[k]).id
                == before.state.tasks[k].id && after.state.tasks[k].status
                == before.state.tasks[k].status,
        after.state.next_task_id == before.state.next_task_id,
        forall|id: usize|
            #[trigger] after.uploads.contains(id) <==> before.uploads.contains(id),
        forall|id: usize| #[trigger] after.waits.contains(id) ==> before.waits.contains(id),
    ensures
        agrees(after),
{
    let old_tasks = before.state.tasks;
    let new_tasks = after.state.tasks;
    assert forall|k: int| 0 <= k < new_tasks.len() implies (in_flight(
        (#[trigger] new_tasks[k]).status,
    ) <==> after.uploads.contains(new_tasks[k].id)) && (after.waits.contains(new_tasks[k].id)
        ==> new_tasks[k].status is Retrying) by {
        assert(in_flight(old_tasks[k].status) <==> before.uploads.contains(old_tasks[k].id));
    }
    assert forall|id: usize| #[trigger] after.uploads.contains(id) implies listed(new_tasks, id) by {
        assert(before.uploads.contains(id));
        let k = choose|k: int| 0 <= k < old_tasks.len() && (#[trigger] old_tasks[k]).id == id;
        assert(new_tasks[k].id == id);
    }
    assert forall|id: usize| #[trigger] after.waits.contains(id) implies id
        < after.state.next_task_id by {
        assert(before.waits.contains(id));
    }
}

/// The progress of an upload keeps what holds of the program.
proof fn lemma_progress_keeps_ok(
    sys: SystemView,
    id: usize,
    status: StatusView,
    created_at: Seq<char>,
    now: u64,
)
    requires
        system_ok(sys),
        can_happen(sys, Step::Progress(id, status)),
    ensures
        system_ok(stepped(sys, Step::Progress(id, status), created_at, now)),
{
    let step = Step::Progress(id, status);
    let after = stepped(sys, step, created_at, now);
    let event = EventView::TaskProgress(id, status);
    lemma_event_keeps_well_formed(sys.state, event, created_at, now);
    lemma_events_keep_retries_bounded(sys.state, event, created_at, now);
    lemma_task_index(sys.state.tasks, id);
    assert(listed(sys.state.tasks, id));
    let i = task_index(sys.state.tasks, id)->0;
    assert(after.state.tasks =~= sys.state.tasks.update(i, after.state.tasks[i]));
    assert(in_flight(sys.state.tasks[i].status));
    assert(!sys.waits.contains(id));
    lemma_one_task_moves(sys, after, i);
}

/// A retry keeps what holds of the program.
proof fn lemma_retry_keeps_ok(
    sys: SystemView,
    id: usize,
    manual: bool,
    clip: Option<Seq<u8>>,
    created_at: Seq<char>,
    now: u64,
)
    requires
        system_ok(sys),
        !manual ==> can_happen(sys, Step::WaitOver(id, clip)),
        manual ==> can_happen(sys, Step::RetryByHand(id, clip)),
    ensures
        !manual ==> system_ok(stepped(sys, Step::WaitOver(id, clip), created_at, now)),
        manual ==> system_ok(stepped(sys, Step::RetryByHand(id, clip), created_at, now)),
{
    let step = if manual {
        Step::RetryByHand(id, clip)
    } else {
        Step::WaitOver(id, clip)
    };
    let after = stepped(sys, step, created_at, now);
    lemma_retry_keeps_well_formed(sys.state, id, manual, clip, now);
    lemma_task_index(sys.state.tasks, id);
    if retry_job(sys.state, id, clip) is Some {
        let i = task_index(sys.state.tasks, id)->0;
        let t = sys.state.tasks[i];
        assert(task_ok(t));
        assert(after.state.tasks =~= sys.state.tasks.update(i, after.state.tasks[i]));
        if manual {
            assert(t.status is Failed);
            assert(!sys.waits.contains(t.id));
        } else {
            assert(t.status is Retrying);
        }
        assert forall|k: int| 0 <= k < after.state.tasks.len() implies (
        #[trigger] after.state.tasks[k]).retry_count <= AUTO_RETRY_MAX_RETRIES by {
            assert(sys.state.tasks[k].retry_count <= AUTO_RETRY_MAX_RETRIES);
        }
        lemma_one_task_moves(sys, after, i);
    } else {
        lemma_tasks_stay(sys, after);
    }
}

/// Every step that can happen keeps what holds of the program.
pub proof fn lemma_step_keeps_ok(sys: SystemView, step: Step, created_at: Seq<char>, now: u64)
    requires
        system_ok(sys),
        can_happen(sys, step),
    ensures
        system_ok(stepped(sys, step, created_at, now)),
{
    let s = sys.state;
    let after = stepped(sys, step, created_at, now);
    match step {
        Step::Progress(id, status) => {
            lemma_progress_keeps_ok(sys, id, status, created_at, now);
        },
        Step::WaitOver(id, clip) => {
            lemma_retry_keeps_ok(sys, id, false, clip, created_at, now);
        },
        Step::RetryByHand(id, clip) => {
            lemma_retry_keeps_ok(sys, id, true, clip, created_at, now);
        },
        Step::Watch(img) => {
            let event = EventView::WatchUpload(img);
            lemma_event_keeps_well_formed(s, event, created_at, now);
            lemma_events_keep_retries_bounded(s, event, created_at, now);
            assert(after.state.tasks.drop_last() =~= s.tasks);
            lemma_task_joins(sys, after);
        },
        Step::Request(clip) => {
            lemma_trigger_keeps_well_formed(s, clip, created_at, now);
            if clip is Some && !some_active(s.tasks) {
                assert(after.state.tasks.drop_last() =~= s.tasks);
                lemma_task_joins(sys, after);
            } else {
                lemma_tasks_stay(sys, after);
            }
        },
        Step::Remove(id) => {
            let keep = |t: TaskView| t.id != id;
            lemma_window_keeps_well_formed(s, now, EditView::Copy(true), keep);
            lemma_filter_keeps(s.tasks, keep, s.next_task_id);
            lemma_removing_keeps_others(s.tasks, id);
            lemma_task_index(s.tasks, id);
            let i = task_index(s.tasks, id)->0;
            lemma_only_place(s, i);
            assert forall|k: int| 0 <= k < s.tasks.len() && in_flight(
                (#[trigger] s.tasks[k]).status,
            ) implies after.state.tasks.contains(s.tasks[k]) by {
                assert(k != i);
            }
            assert(after.uploads =~= sys.uploads);
            assert(after.waits =~= sys.waits);
            lemma_tasks_leave(sys, after);
        },
        Step::ClearFinished => {
            let keep = |t: TaskView| is_active(t.status);
            lemma_window_keeps_well_formed(s, now, EditView::Copy(true), keep);
            lemma_filter_keeps(s.tasks, keep, s.next_task_id);
            lemma_clearing_keeps_active(s.tasks);
            assert(after.uploads =~= sys.uploads);
            assert(after.waits =~= sys.waits);
            lemma_tasks_leave(sys, after);
        },
        Step::Frame => {
            lemma_window_keeps_well_formed(s, now, EditView::Copy(true), |t: TaskView| true);
            lemma_tasks_stay(sys, after);
        },
        Step::Edit(change) => {
            lemma_window_keeps_well_formed(s, now, change, |t: TaskView| true);
            lemma_tasks_stay(sys, after);
        },
        _ => {
            lemma_tasks_stay(sys, after);
        },
    }
}

/// Whatever happens to the program from its start, no task ever has more than two
/// automatic retries, the numbers of the tasks stay distinct, and what is under way
/// agrees with what the list says.
pub proof fn lemma_always_ok(
    config: ConfigView,
    history: Seq<RecordView>,
    steps: Seq<(Step, Seq<char>, u64)>,
)
    requires
        possible(config, history, steps),
    ensures
        system_ok(run(config, history, steps)),
    decreases steps.len(),
{
    if steps.len() == 0 {
        lemma_start_well_formed(config, history);
    } else {
        let (step, created_at, now) = steps.last();
        lemma_always_ok(config, history, steps.drop_last());
        lemma_step_keeps_ok(run(config, history, steps.drop_last()), step, created_at, now);
    }
}

/// No task is ever uploaded twice at the same time, and none waits twice for a retry
/// or waits while it is uploaded.
pub proof fn lemma_nothing_twice(sys: SystemView, step: Step)
    requires
        system_ok(sys),
        can_happen(sys, step),
    ensures
        upload_started(sys.state, step) matches Some(id) ==> !sys.uploads.contains(id),
        wait_started(sys.state, step) matches Some(id) ==> !sys.waits.contains(id),
        forall|id: usize| sys.uploads.contains(id) ==> !#[trigger] sys.waits.contains(id),
{
    let s = sys.state;
    assert forall|id: usize| sys.uploads.contains(id) implies !#[trigger] sys.waits.contains(id) by {
        assert(listed(s.tasks, id));
        let k = choose|k: int| 0 <= k < s.tasks.len() && (#[trigger] s.tasks[k]).id == id;
        assert(in_flight(s.tasks[k].status));
    }
    match upload_started(s, step) {
        Some(id) => {
            if sys.uploads.contains(id) {
                assert(listed(s.tasks, id));
                let k = choose|k: int| 0 <= k < s.tasks.len() && (#[trigger] s.tasks[k]).id == id;
                assert(in_flight(s.tasks[k].status));
                assert(s.tasks[k].id < s.next_task_id);
                lemma_only_place(s, k);
            }
        },
        None => {},
    }
}

/// What is done about an event is what a step counts as started: the end of a wait
/// starts over the task, with the image on the clipboard where the task has kept none;
/// a failure starts a wait exactly where the wait is asked for.
pub proof fn lemma_steps_are_events(
    s: StateView,
    id: usize,
    clip: Option<Seq<u8>>,
    message: Seq<char>,
    retryable: bool,
    created_at: Seq<char>,
    now: u64,
)
    ensures
        !needs_clipboard(s, id) ==> after_event(s, EventView::RetryTask(id), created_at, now)
            == state_after(s, Step::WaitOver(id, clip), created_at, now),
        needs_clipboard(s, id) ==> after_event(s, EventView::RetryTask(id), created_at, now) == s
            && event_actions(s, EventView::RetryTask(id)) == seq![ActionView::ReadForRetry(id)],
        ({
            let failed = StatusView::Failed { message, retryable };
            event_actions(s, EventView::TaskProgress(id, failed)) == (match wait_started(
                s,
                Step::Progress(id, failed),
            ) {
                Some(w) => seq![ActionView::RetryAfter(w, retry_delay(next_attempt(s, w)))],
                None => seq![],
            })
        }),
{
    lemma_task_index(s.tasks, id);
}

} // verus!
