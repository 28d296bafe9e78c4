//! The lists of tasks and records, the end of a frame and the launch.
use vstd::prelude::*;

use crate::lifecycle::{
    action_at, launch_after, requests_after, requests_heard, show_message, Launch, LaunchAction,
    LaunchEvent, ShowRequests, ShowStep, KNOCK_PAUSE_MILLIS, MAX_LOG_BYTES,
};
use crate::state::{RecordView, StateView};
use crate::task::{StatusView, TaskView};
use crate::window::{
    active_tasks, count_tasks, frame_end_of, other_records, other_tasks, FrameEnd,
};

verus! {

/// Clearing the tasks keeps those under way, in their order, and drops the others: each
/// task is kept or dropped by itself, whatever stands before it.
pub proof fn lemma_clearing(tasks: Seq<TaskView>, t: TaskView)
    ensures
        active_tasks(Seq::empty()) == Seq::<TaskView>::empty(),
        t.status is Success || t.status is Failed ==> active_tasks(tasks.push(t)) == active_tasks(
            tasks,
        ),
        !(t.status is Success) && !(t.status is Failed) ==> active_tasks(tasks.push(t))
            == active_tasks(tasks).push(t),
{
    reveal(Seq::filter);
    assert(tasks.push(t).drop_last() =~= tasks);
}

/// Removing a task drops every task of that number and keeps all others in their order.
pub proof fn lemma_removing_a_task(tasks: Seq<TaskView>, t: TaskView, id: usize)
    ensures
        other_tasks(Seq::empty(), id) == Seq::<TaskView>::empty(),
        t.id == id ==> other_tasks(tasks.push(t), id) == other_tasks(tasks, id),
        t.id != id ==> other_tasks(tasks.push(t), id) == other_tasks(tasks, id).push(t),
{
    reveal(Seq::filter);
    assert(tasks.push(t).drop_last() =~= tasks);
}

/// Removing a record drops every record of that number and keeps all others in their
/// order.
pub proof fn lemma_removing_a_record(history: Seq<RecordView>, r: RecordView, id: i64)
    ensures
        other_records(Seq::empty(), id) == Seq::<RecordView>::empty(),
        r.id == id ==> other_records(history.push(r), id) == other_records(history, id),
        r.id != id ==> other_records(history.push(r), id) == other_records(history, id).push(r),
{
    reveal(Seq::filter);
    assert(history.push(r).drop_last() =~= history);
}

/// A count tells how many tasks are in such a stage: each task counts once, where its
/// stage passes.
pub proof fn lemma_counting(tasks: Seq<TaskView>, t: TaskView, pred: spec_fn(StatusView) -> bool)
    ensures
        count_tasks(Seq::empty(), pred) == 0,
        count_tasks(tasks.push(t), pred) == count_tasks(tasks, pred) + (if pred(t.status) {
            1nat
        } else {
            0
        }),
{
    reveal(Seq::filter);
    assert(tasks.push(t).drop_last() =~= tasks);
}

/// A frame ends the program where it was asked to quit, hides the window where it is
/// closed and the settings do not forbid it, and draws it otherwise.
pub proof fn lemma_end_of_a_frame(s: StateView, close_requested: bool)
    ensures
        s.quit_requested ==> frame_end_of(s, close_requested) == FrameEnd::Quit,
        !s.quit_requested && close_requested && s.config.close_to_tray != Some(false)
            ==> frame_end_of(s, close_requested) == FrameEnd::Hide,
        !s.quit_requested && close_requested && s.config.close_to_tray == Some(false)
            ==> frame_end_of(s, close_requested) == FrameEnd::Draw,
        !s.quit_requested && !close_requested ==> frame_end_of(s, close_requested)
            == FrameEnd::Draw,
{
}

/// A request to show the window is kept until it is taken; the first window that attaches
/// itself stays. Each of the three changes its own part alone.
pub proof fn lemma_requests_to_show(r: ShowRequests, step: ShowStep)
    ensures
        ({
            let n = requests_after(r, step);
            &&& step is Ask ==> n.show_window && n.context == r.context
            &&& step is Take ==> !n.show_window && n.context == r.context
            &&& step matches ShowStep::Attach(c) ==> n.show_window == r.show_window && n.context
                == (if r.context is Some {
                r.context
            } else {
                Some(c)
            })
        }),
{
}

/// Another instance asks to show the window by the four letters of `show`, and by nothing
/// else.
pub proof fn lemma_message_of_another_instance(r: ShowRequests, message: Seq<u8>)
    ensures
        show_message() == seq![115u8, 104, 111, 119],
        message == seq![115u8, 104, 111, 119] ==> requests_heard(r, message).show_window
            && requests_heard(r, message).context == r.context,
        message != seq![115u8, 104, 111, 119] ==> requests_heard(r, message) == r,
{
    assert(show_message() =~= seq![115u8, 104, 111, 119]);
}

/// A launch takes the lock or knocks at the instance that has it: it serves where it gets
/// the lock, fails where the lock fails, and knocks at most twenty times.
pub proof fn lemma_launch(n: u32)
    ensures
        launch_after(Launch::Locking, LaunchEvent::Locked) is Serving,
        launch_after(Launch::Locking, LaunchEvent::LockBusy) == Launch::Knocking(0),
        launch_after(Launch::Locking, LaunchEvent::LockError) is LockFailed,
        launch_after(Launch::Knocking(n), LaunchEvent::Answered) is HandedOver,
        n < 19 ==> launch_after(Launch::Knocking(n), LaunchEvent::Unanswered) == Launch::Knocking(
            (n + 1) as u32,
        ),
        n >= 19 ==> launch_after(Launch::Knocking(n), LaunchEvent::Unanswered) is NoAnswer,
        KNOCK_PAUSE_MILLIS == 50,
        MAX_LOG_BYTES == 5 * 1024 * 1024,
{
}

/// What comes after the end of a launch, or out of turn, changes nothing.
pub proof fn lemma_launch_is_over(state: Launch, event: LaunchEvent)
    ensures
        state is Serving || state is HandedOver || state is LockFailed || state is NoAnswer
            ==> launch_after(state, event) == state,
        state is Locking && (event is Answered || event is Unanswered) ==> launch_after(
            state,
            event,
        ) == state,
        state is Knocking && !(event is Answered) && !(event is Unanswered) ==> launch_after(
            state,
            event,
        ) == state,
{
}

/// What a launch does at each stage.
pub proof fn lemma_what_a_launch_does(n: u32)
    ensures
        action_at(Launch::Locking) == LaunchAction::TryLock,
        action_at(Launch::Knocking(n)) == LaunchAction::Knock,
        action_at(Launch::Serving) == LaunchAction::Serve,
        action_at(Launch::HandedOver) == LaunchAction::Leave,
        action_at(Launch::LockFailed) == LaunchAction::FailLock,
        action_at(Launch::NoAnswer) == LaunchAction::FailAnswer,
{
}

} // verus!
