//! The life of the running program: requests to show the window, one instance at a
//! time, and the log file.
use vstd::prelude::*;

use crate::digits::{hex16, hex16_text};

verus! {

/// What the window system and other processes have asked for so far.
#[derive(Debug, Clone, Copy, PartialEq, Eq, Structural)]
pub struct ShowRequests {
    /// The number of the window to wake, if there is one.
    pub context: Option<usize>,
    /// Whether a request to show the window waits to be taken.
    pub show_window: bool,
}

/// What happens to the requests.
#[derive(Debug, Clone, Copy, PartialEq, Eq, Structural)]
pub enum ShowStep {
    /// The window is asked for.
    Ask,
    /// The window of that number is there.
    Attach(usize),
    /// The window takes what was asked for.
    Take,
}

/// The requests after a step. The first window that is there stays the one to wake.
pub open spec fn requests_after(r: ShowRequests, step: ShowStep) -> ShowRequests {
    match step {
        ShowStep::Ask => ShowRequests { show_window: true, ..r },
        ShowStep::Attach(c) => ShowRequests {
            context: if r.context is Some {
                r.context
            } else {
                Some(c)
            },
            ..r
        },
        ShowStep::Take => ShowRequests { show_window: false, ..r },
    }
}

/// The requests after a number of steps.
pub open spec fn requests_after_all(r: ShowRequests, steps: Seq<ShowStep>) -> ShowRequests
    decreases steps.len(),
{
    if steps.len() == 0 {
        r
    } else {
        requests_after(requests_after_all(r, steps.drop_last()), steps.last())
    }
}

/// No window yet, and nothing asked for.
pub fn no_requests() -> (r: ShowRequests)
    ensures
        r.context is None,
        !r.show_window,
{
    ShowRequests { context: None, show_window: false }
}

/// Tells which window there is to wake.
pub fn wake_ui(requests: &ShowRequests) -> (wakes: Option<usize>)
    ensures
        wakes == requests.context,
{
    requests.context
}

/// Asks to show the window, and tells which there is to wake at once.
pub fn request_show(requests: &mut ShowRequests) -> (wakes: Option<usize>)
    ensures
        *final(requests) == requests_after(*old(requests), ShowStep::Ask),
        wakes == old(requests).context,
{
    requests.show_window = true;
    wake_ui(requests)
}

/// Tells the requests of a window, and gives the one that has to wake at once because a
/// request has been waiting for it. A second window does not replace the first.
pub fn attach_context(requests: &mut ShowRequests, context: usize) -> (wakes: Option<usize>)
    ensures
        *final(requests) == requests_after(*old(requests), ShowStep::Attach(context)),
        wakes == (if old(requests).show_window {
            final(requests).context
        } else {
            None
        }),
{
    if requests.context.is_none() {
        requests.context = Some(context);
    }
    if requests.show_window {
        wake_ui(requests)
    } else {
        None
    }
}

/// Takes the waiting request, if there is one.
pub fn take_show_request(requests: &mut ShowRequests) -> (taken: bool)
    ensures
        *final(requests) == requests_after(*old(requests), ShowStep::Take),
        taken == old(requests).show_window,
{
    let taken = requests.show_window;
    requests.show_window = false;
    taken
}

/// The first window stays the one to wake, whatever happens later and whatever other
/// windows come.
pub proof fn lemma_first_window_stays(r: ShowRequests, first: usize, steps: Seq<ShowStep>)
    requires
        r.context is None,
    ensures
        requests_after_all(requests_after(r, ShowStep::Attach(first)), steps).context == Some(
            first,
        ),
    decreases steps.len(),
{
    if steps.len() > 0 {
        lemma_first_window_stays(r, first, steps.drop_last());
    }
}

/// A request is not lost: it waits until it is taken, whether or not there was a
/// window when it came.
pub proof fn lemma_request_waits(r: ShowRequests, steps: Seq<ShowStep>)
    requires
        forall|i: int| 0 <= i < steps.len() ==> #[trigger] steps[i] != ShowStep::Take,
    ensures
        requests_after_all(requests_after(r, ShowStep::Ask), steps).show_window,
    decreases steps.len(),
{
    if steps.len() > 0 {
        assert(steps.last() == steps[steps.len() - 1]);
        assert forall|i: int| 0 <= i < steps.drop_last().len() implies #[trigger] steps.drop_last()[i]
            != ShowStep::Take by {
            assert(steps.drop_last()[i] == steps[i]);
        }
        lemma_request_waits(r, steps.drop_last());
    }
}

/// A request is taken once: nothing waits again until the window is asked for again.
pub proof fn lemma_request_taken_once(r: ShowRequests, steps: Seq<ShowStep>)
    requires
        forall|i: int| 0 <= i < steps.len() ==> #[trigger] steps[i] != ShowStep::Ask,
    ensures
        !requests_after_all(requests_after(r, ShowStep::Take), steps).show_window,
    decreases steps.len(),
{
    if steps.len() > 0 {
        assert(steps.last() == steps[steps.len() - 1]);
        assert forall|i: int| 0 <= i < steps.drop_last().len() implies #[trigger] steps.drop_last()[i]
            != ShowStep::Ask by {
            assert(steps.drop_last()[i] == steps[i]);
        }
        lemma_request_taken_once(r, steps.drop_last());
    }
}

/// How often a second process knocks at the first before it gives up.
pub const MAX_KNOCKS: u32 = 20;

/// How many milliseconds it waits after a knock that nobody answered.
pub const KNOCK_PAUSE_MILLIS: u64 = 50;

/// How far the start of a process has come.
#[derive(Debug, Clone, Copy, PartialEq, Eq, Structural)]
pub enum Launch {
    /// It tries to take the lock.
    Locking,
    /// Another process has the lock, and this many knocks went unanswered.
    Knocking(u32),
    /// It has the lock and is the one instance.
    Serving,
    /// Another process has answered and shows its window.
    HandedOver,
    /// The lock could not be tried.
    LockFailed,
    /// Another process has the lock but does not answer.
    NoAnswer,
}

/// What a starting process learns.
#[derive(Debug, Clone, Copy, PartialEq, Eq, Structural)]
pub enum LaunchEvent {
    /// The lock is taken.
    Locked,
    /// Another process has the lock.
    LockBusy,
    /// The lock could not be tried.
    LockError,
    /// The other process has answered a knock.
    Answered,
    /// Nobody has answered a knock.
    Unanswered,
}

/// How a start goes on. Nothing moves it once it has ended, and an event that does
/// not belong to its stage leaves it where it is.
pub open spec fn launch_after(state: Launch, event: LaunchEvent) -> Launch {
    match (state, event) {
        (Launch::Locking, LaunchEvent::Locked) => Launch::Serving,
        (Launch::Locking, LaunchEvent::LockBusy) => Launch::Knocking(0),
        (Launch::Locking, LaunchEvent::LockError) => Launch::LockFailed,
        (Launch::Knocking(_), LaunchEvent::Answered) => Launch::HandedOver,
        (Launch::Knocking(n), LaunchEvent::Unanswered) => if n + 1 < MAX_KNOCKS {
            Launch::Knocking((n + 1) as u32)
        } else {
            Launch::NoAnswer
        },
        (s, _) => s,
    }
}

/// Takes a start one step further.
pub fn acquire_instance(state: Launch, event: LaunchEvent) -> (r: Launch)
    ensures
        r == launch_after(state, event),
{
    match state {
        Launch::Locking => match event {
            LaunchEvent::Locked => Launch::Serving,
            LaunchEvent::LockBusy => Launch::Knocking(0),
            LaunchEvent::LockError => Launch::LockFailed,
            _ => state,
        },
        Launch::Knocking(n) => match event {
            LaunchEvent::Answered => Launch::HandedOver,
            LaunchEvent::Unanswered => if n < MAX_KNOCKS - 1 {
                Launch::Knocking(n + 1)
            } else {
                Launch::NoAnswer
            },
            _ => state,
        },
        _ => state,
    }
}

/// The stage after a number of unanswered knocks.
pub open spec fn after_unanswered(n: nat) -> Launch
    decreases n,
{
    if n == 0 {
        launch_after(Launch::Locking, LaunchEvent::LockBusy)
    } else {
        launch_after(after_unanswered((n - 1) as nat), LaunchEvent::Unanswered)
    }
}

/// A process that finds the lock taken knocks twenty times, no less and no more, and
/// an answer at any of them hands over to the other process.
pub proof fn lemma_knocks(n: nat)
    ensures
        n < MAX_KNOCKS ==> after_unanswered(n) == Launch::Knocking(n as u32) && launch_after(
            after_unanswered(n),
            LaunchEvent::Answered,
        ) == Launch::HandedOver,
        n >= MAX_KNOCKS ==> after_unanswered(n) == Launch::NoAnswer,
    decreases n,
{
    if n > 0 {
        lemma_knocks((n - 1) as nat);
    }
}

/// A process that does not get the lock never becomes a second instance, nor gets
/// back to trying the lock, whatever it learns later.
pub proof fn lemma_one_instance(events: Seq<LaunchEvent>, state: Launch)
    requires
        state !is Locking,
        state !is Serving,
    ensures
        events.fold_left(state, |s: Launch, e: LaunchEvent| launch_after(s, e)) !is Serving,
        events.fold_left(state, |s: Launch, e: LaunchEvent| launch_after(s, e)) !is Locking,
    decreases events.len(),
{
    reveal_with_fuel(Seq::fold_left, 2);
    if events.len() > 0 {
        lemma_one_instance(events.drop_last(), state);
    }
}

/// What a starting process does next.
#[derive(Debug, Clone, Copy, PartialEq, Eq, Structural)]
pub enum LaunchAction {
    /// Try to take the lock.
    TryLock,
    /// Knock at the other process, and wait where nobody answers.
    Knock,
    /// Take the socket over and serve as the one instance.
    Serve,
    /// End, since the other process shows its window.
    Leave,
    /// Fail with the error of the lock.
    FailLock,
    /// Fail, since the other process does not answer.
    FailAnswer,
}

/// What a starting process does next. The socket is touched by the one that serves and
/// by no other.
pub open spec fn action_at(state: Launch) -> LaunchAction {
    match state {
        Launch::Locking => LaunchAction::TryLock,
        Launch::Knocking(_) => LaunchAction::Knock,
        Launch::Serving => LaunchAction::Serve,
        Launch::HandedOver => LaunchAction::Leave,
        Launch::LockFailed => LaunchAction::FailLock,
        Launch::NoAnswer => LaunchAction::FailAnswer,
    }
}

/// Tells what a starting process does next.
pub fn launch_action(state: Launch) -> (r: LaunchAction)
    ensures
        r == action_at(state),
{
    match state {
        Launch::Locking => LaunchAction::TryLock,
        Launch::Knocking(_) => LaunchAction::Knock,
        Launch::Serving => LaunchAction::Serve,
        Launch::HandedOver => LaunchAction::Leave,
        Launch::LockFailed => LaunchAction::FailLock,
        Launch::NoAnswer => LaunchAction::FailAnswer,
    }
}

/// The starts that live on one data directory, each with its stage, and which of them
/// holds the lock and which has bound the socket.
pub struct InstancesView {
    pub launches: Map<nat, Launch>,
    pub lock: Option<nat>,
    pub socket: Option<nat>,
}

/// What happens to the starts on one data directory.
pub enum InstanceStep {
    /// A start begins, in this process or another.
    Begin(nat),
    /// A start learns something.
    Learn(nat, LaunchEvent),
    /// A start ends: its process is over, or what it holds is dropped.
    End(nat),
}

/// Whether a step can happen. The lock is an exclusive one: it is given to a start that
/// tries it only while no other holds it, and found busy only while another does.
pub open spec fn can_step(w: InstancesView, step: InstanceStep) -> bool {
    match step {
        InstanceStep::Begin(n) => !w.launches.dom().contains(n),
        InstanceStep::Learn(n, event) => w.launches.dom().contains(n) && match event {
            LaunchEvent::Locked => w.launches[n] is Locking && w.lock is None,
            LaunchEvent::LockBusy => w.launches[n] is Locking && w.lock is Some,
            LaunchEvent::LockError => w.launches[n] is Locking,
            LaunchEvent::Answered | LaunchEvent::Unanswered => action_at(w.launches[n])
                == LaunchAction::Knock,
        },
        InstanceStep::End(n) => w.launches.dom().contains(n),
    }
}

/// The starts after a step: one that is given the lock has it, one that serves binds the
/// socket, and one that ends lets go of what it has.
pub open spec fn instances_after(w: InstancesView, step: InstanceStep) -> InstancesView {
    match step {
        InstanceStep::Begin(n) => InstancesView {
            launches: w.launches.insert(n, Launch::Locking),
            ..w
        },
        InstanceStep::Learn(n, event) => {
            let stage = launch_after(w.launches[n], event);
            InstancesView {
                launches: w.launches.insert(n, stage),
                lock: if event is Locked {
                    Some(n)
                } else {
                    w.lock
                },
                socket: if action_at(stage) == LaunchAction::Serve {
                    Some(n)
                } else {
                    w.socket
                },
            }
        },
        InstanceStep::End(n) => InstancesView {
            launches: w.launches.remove(n),
            lock: if w.lock == Some(n) {
                None
            } else {
                w.lock
            },
            socket: if w.socket == Some(n) {
                None
            } else {
                w.socket
            },
        },
    }
}

/// The starts after a number of steps, from where there were none.
pub open spec fn instances_run(steps: Seq<InstanceStep>) -> InstancesView
    decreases steps.len(),
{
    if steps.len() == 0 {
        InstancesView { launches: Map::empty(), lock: None, socket: None }
    } else {
        instances_after(instances_run(steps.drop_last()), steps.last())
    }
}

/// Whether each of a number of steps can happen when it comes.
pub open spec fn can_run(steps: Seq<InstanceStep>) -> bool
    decreases steps.len(),
{
    steps.len() == 0 || (can_run(steps.drop_last()) && can_step(
        instances_run(steps.drop_last()),
        steps.last(),
    ))
}

/// The start that serves is the one that has the lock and the socket, and there is such
/// a start wherever the lock is held.
pub open spec fn instances_ok(w: InstancesView) -> bool {
    &&& w.socket == w.lock
    &&& w.lock matches Some(n) ==> w.launches.dom().contains(n)
    &&& forall|n: nat| #[trigger]
        w.launches.dom().contains(n) ==> (w.launches[n] is Serving <==> w.lock == Some(n))
}

/// A step keeps the lock with the start that serves; only its own end takes the lock or
/// the socket from it.
proof fn lemma_step_keeps_instances(w: InstancesView, step: InstanceStep)
    requires
        instances_ok(w),
        can_step(w, step),
    ensures
        instances_ok(instances_after(w, step)),
        w.lock matches Some(h) && !(step matches InstanceStep::End(n) && n == h)
            ==> instances_after(w, step).lock == w.lock && instances_after(w, step).socket
            == w.socket,
{
    let after = instances_after(w, step);
    assert forall|n: nat| #[trigger] after.launches.dom().contains(n) implies (
    after.launches[n] is Serving <==> after.lock == Some(n)) by {
        match step {
            InstanceStep::Begin(m) => {
                if n != m {
                    assert(w.launches.dom().contains(n));
                }
            },
            InstanceStep::Learn(m, _) => {
                assert(w.launches.dom().contains(n));
                assert(w.launches.dom().contains(m));
            },
            InstanceStep::End(_) => {
                assert(w.launches.dom().contains(n));
            },
        }
    }
    if let InstanceStep::Learn(m, _) = step {
        assert(w.launches.dom().contains(m));
    }
}

/// At any time at most one start serves on a data directory: two that serve are the same.
/// The one that serves has the lock and the socket.
pub proof fn lemma_at_most_one_serves(steps: Seq<InstanceStep>, a: nat, b: nat)
    requires
        can_run(steps),
    ensures
        instances_ok(instances_run(steps)),
        ({
            let w = instances_run(steps);
            w.launches.dom().contains(a) && w.launches[a] is Serving ==> w.lock == Some(a)
                && w.socket == Some(a) && (w.launches.dom().contains(b)
                && w.launches[b] is Serving ==> a == b)
        }),
    decreases steps.len(),
{
    if steps.len() > 0 {
        lemma_at_most_one_serves(steps.drop_last(), a, b);
        lemma_step_keeps_instances(instances_run(steps.drop_last()), steps.last());
    }
}

/// While a start serves and has not ended, no other start comes to serve, and its lock
/// and its socket are left as they are, whatever happens on that data directory.
pub proof fn lemma_one_that_serves_is_left_alone(
    before: Seq<InstanceStep>,
    later: Seq<InstanceStep>,
    h: nat,
)
    requires
        can_run(before + later),
        instances_run(before).launches.dom().contains(h),
        instances_run(before).launches[h] is Serving,
        forall|i: int|
            0 <= i < later.len() ==> !(#[trigger] later[i] matches InstanceStep::End(n) && n == h),
    ensures
        ({
            let w = instances_run(before + later);
            &&& w.lock == Some(h)
            &&& w.socket == Some(h)
            &&& forall|n: nat| #[trigger]
                w.launches.dom().contains(n) && n != h ==> !(w.launches[n] is Serving)
        }),
    decreases later.len(),
{
    if later.len() == 0 {
        assert(before + later =~= before);
        lemma_at_most_one_serves(before, h, h);
    } else {
        let all = before + later;
        assert(all.drop_last() =~= before + later.drop_last());
        assert(all.last() == later[later.len() - 1]);
        assert forall|i: int| 0 <= i < later.drop_last().len() implies !(
        #[trigger] later.drop_last()[i] matches InstanceStep::End(n) && n == h) by {
            assert(later.drop_last()[i] == later[i]);
        }
        lemma_one_that_serves_is_left_alone(before, later.drop_last(), h);
        lemma_at_most_one_serves(all.drop_last(), h, h);
        lemma_step_keeps_instances(instances_run(all.drop_last()), all.last());
    }
}

/// The name of the socket on which the one instance listens.
pub fn socket_name(hash: u64) -> (r: String)
    ensures
        r@ == "rcu-"@ + hex16(hash) + ".sock"@,
{
    let mut r = "rcu-".to_owned();
    r.append(hex16_text(hash).as_str());
    r.append(".sock");
    r
}

/// What a second process sends to have the window shown.
pub open spec fn show_message() -> Seq<u8> {
    seq![115u8, 104u8, 111u8, 119u8]
}

/// Writes what a second process sends to have the window shown.
pub fn show_bytes() -> (r: Vec<u8>)
    ensures
        r@ == show_message(),
{
    let mut r: Vec<u8> = Vec::new();
    r.push(115);
    r.push(104);
    r.push(111);
    r.push(119);
    assert(r@ =~= show_message());
    r
}

/// Whether a message asks to show the window.
pub fn is_show_message(message: &[u8]) -> (r: bool)
    ensures
        r == (message@ == show_message()),
{
    if message.len() != 4 {
        return false;
    }
    let r = message[0] == 115 && message[1] == 104 && message[2] == 111 && message[3] == 119;
    assert(r ==> message@ =~= show_message());
    r
}

/// The requests after a message from another process: one that asks to show the window
/// is a request, and any other is passed over.
pub open spec fn requests_heard(r: ShowRequests, message: Seq<u8>) -> ShowRequests {
    if message == show_message() {
        requests_after(r, ShowStep::Ask)
    } else {
        r
    }
}

/// Takes a message from another process, and tells which window there is to wake.
pub fn hear_message(requests: &mut ShowRequests, message: &[u8]) -> (wakes: Option<usize>)
    ensures
        *final(requests) == requests_heard(*old(requests), message@),
        wakes == (if message@ == show_message() {
            old(requests).context
        } else {
            None
        }),
{
    if is_show_message(message) {
        request_show(requests)
    } else {
        None
    }
}

/// What a second process says where the first does not answer.
pub fn no_answer_text() -> (r: &'static str)
    ensures
        r@ == "应用已经运行，但暂时无法恢复窗口。请从菜单栏打开应用。"@,
{
    "应用已经运行，但暂时无法恢复窗口。请从菜单栏打开应用。"
}

/// What a second process sends is heard: it raises the request to show the window, which
/// waits until it is taken.
pub proof fn lemma_knock_is_heard(r: ShowRequests, steps: Seq<ShowStep>)
    requires
        forall|i: int| 0 <= i < steps.len() ==> #[trigger] steps[i] != ShowStep::Take,
    ensures
        requests_heard(r, show_message()).show_window,
        requests_after_all(requests_heard(r, show_message()), steps).show_window,
{
    lemma_request_waits(r, steps);
}

/// How long the log file may grow before it is set aside.
pub const MAX_LOG_BYTES: u64 = 5242880;

/// Whether the log file, of that length if there is one, has to be set aside.
pub fn rotates_log(len: Option<u64>) -> (r: bool)
    ensures
        r == (len is Some && len->0 > MAX_LOG_BYTES),
{
    match len {
        Some(n) => n > MAX_LOG_BYTES,
        None => false,
    }
}

} // verus!
