//! What the window does to the state: time passing, clicks and closing.
use vstd::prelude::*;

use crate::config::{
    accent_in, config_accent_color, config_theme_mode, editable, flag_or, maybe_text,
    theme_mode_in, tray_enabled, watch_enabled, AccentColor, Config, ConfigView, ThemeMode,
};
use crate::state::{
    clock_in_range, passing, record_models, silent, sticky, AppState, AppTab, BottomTab,
    HistoryRecord, RecordView, SettingsTab, StateView,
};
use crate::task::{
    has_active, is_active, some_active, task_is_active, task_models, StatusView, TaskStatus,
    TaskView, UploadTask,
};
use crate::text::joined;

verus! {

/// The state without a message whose time is over.
pub open spec fn message_expired(s: StateView, now: u64) -> StateView {
    if s.status_clear_at is Some && now >= s.status_clear_at->0 {
        silent(s)
    } else {
        s
    }
}

/// The task without an image whose time is over.
pub open spec fn image_expired(t: TaskView, now: u64) -> TaskView {
    if t.data_expires_at is Some && now > t.data_expires_at->0 && t.image_data.len() > 0 {
        TaskView { image_data: Seq::empty(), data_expires_at: None, ..t }
    } else {
        t
    }
}

/// The state at the beginning of a frame.
pub open spec fn frame_begun(s: StateView, now: u64) -> StateView {
    let m = message_expired(s, now);
    StateView { tasks: Seq::new(m.tasks.len(), |i: int| image_expired(m.tasks[i], now)), ..m }
}

/// How a frame ends.
#[derive(Debug, Clone, Copy, PartialEq, Eq, Structural)]
pub enum FrameEnd {
    /// The window is drawn.
    Draw,
    /// The window hides and the program goes on.
    Hide,
    /// The program ends.
    Quit,
}

/// How a frame ends: a request to quit is obeyed, and closing the window otherwise
/// hides it where the settings say so.
pub open spec fn frame_end_of(s: StateView, close_requested: bool) -> FrameEnd {
    if s.quit_requested {
        FrameEnd::Quit
    } else if close_requested && flag_or(s.config.close_to_tray, true) {
        FrameEnd::Hide
    } else {
        FrameEnd::Draw
    }
}

/// The tasks that are still under way.
pub open spec fn active_tasks(tasks: Seq<TaskView>) -> Seq<TaskView> {
    tasks.filter(|t: TaskView| is_active(t.status))
}

/// The tasks but those of that number.
pub open spec fn other_tasks(tasks: Seq<TaskView>, id: usize) -> Seq<TaskView> {
    tasks.filter(|t: TaskView| t.id != id)
}

/// The records but those of that number.
pub open spec fn other_records(history: Seq<RecordView>, id: i64) -> Seq<RecordView> {
    history.filter(|r: RecordView| r.id != id)
}

/// The models of the items of a list.
pub open spec fn models<T: View>(items: Seq<T>) -> Seq<T::V> {
    Seq::new(items.len(), |i: int| items[i]@)
}

/// Keeps the items of a list that pass a test, in their order, and drops the others.
fn keep_only<T: View, F: Fn(&T) -> bool>(
    items: &mut Vec<T>,
    test: F,
    Ghost(pred): Ghost<spec_fn(T::V) -> bool>,
)
    requires
        forall|t: &T| #[trigger] test.requires((t,)),
        forall|t: &T, b: bool| #[trigger] test.ensures((t,), b) ==> b == pred(t@),
    ensures
        models(final(items)@) == models(old(items)@).filter(pred),
{
    let ghost all = models(items@);
    let ghost mut done: int = 0;
    let mut i: usize = 0;
    proof {
        reveal(Seq::filter);
        assert(all.take(0) =~= Seq::<T::V>::empty());
        assert(models(items@) =~= all.take(0).filter(pred) + all.skip(0));
    }
    while i < items.len()
        invariant
            i <= items.len(),
            0 <= done <= all.len(),
            forall|t: &T| #[trigger] test.requires((t,)),
            forall|t: &T, b: bool| #[trigger] test.ensures((t,), b) ==> b == pred(t@),
            i == all.take(done).filter(pred).len(),
            models(items@) == all.take(done).filter(pred) + all.skip(done),
        decreases items.len() - i,
    {
        let ghost earlier = models(items@);
        let ghost front = all.take(done).filter(pred);
        proof {
            reveal(Seq::filter);
            assert(done < all.len());
            assert(earlier[i as int] == items@[i as int]@);
            assert(earlier[i as int] == all[done]);
            assert(all.take(done + 1).drop_last() =~= all.take(done));
            assert(all.take(done + 1).last() == all[done]);
        }
        if test(&items[i]) {
            i += 1;
            assert(earlier =~= front.push(all[done]) + all.skip(done + 1));
        } else {
            let _ = items.remove(i);
            assert(models(items@) =~= earlier.remove(i as int));
            assert(models(items@) =~= front + all.skip(done + 1));
        }
        proof {
            done = done + 1;
        }
    }
    assert(all.skip(done).len() == 0);
    assert(all.take(done) =~= all);
    assert(models(items@) =~= all.filter(pred));
}

/// How many tasks pass a test.
pub open spec fn count_tasks(tasks: Seq<TaskView>, pred: spec_fn(StatusView) -> bool) -> nat {
    tasks.filter(|t: TaskView| pred(t.status)).len()
}

/// The numbers of tasks that are under way, that failed and that succeeded.
#[derive(Debug, Clone, Copy, PartialEq, Eq, Structural)]
pub struct Counts {
    pub active: usize,
    pub failed: usize,
    pub succeeded: usize,
}

/// Which link was copied.
pub enum CopySource {
    /// A link in the tray.
    Tray(String),
    /// The last link.
    LastLink,
    /// The link of a task.
    Task,
    /// A link of the history.
    History,
}

/// What is said when a link was copied.
pub open spec fn copy_message(source: CopySource) -> Seq<char> {
    match source {
        CopySource::Tray(url) => "已复制: "@ + url@,
        CopySource::LastLink => "已复制到剪贴板"@,
        CopySource::Task => "已复制任务链接"@,
        CopySource::History => "已复制历史链接"@,
    }
}

/// The state after a link was to be copied: where it was, a passing message says so.
pub open spec fn copy_told(s: StateView, source: CopySource, copied: bool, now: u64) -> StateView {
    if copied {
        passing(s, now, false, copy_message(source))
    } else {
        s
    }
}

/// The state after the settings were written, or could not be.
pub open spec fn config_saved(
    s: StateView,
    error: Option<Seq<char>>,
    now: u64,
) -> StateView {
    match error {
        None => passing(StateView { config_dirty: false, ..s }, now, false, "配置已保存"@),
        Some(e) => sticky(s, true, "保存失败: "@ + e),
    }
}

/// The state at the start, with nothing done yet.
pub open spec fn start_state(config: ConfigView, history: Seq<RecordView>) -> StateView {
    StateView {
        config,
        last_url: None,
        status: None,
        status_clear_at: None,
        watch_active: flag_or(config.auto_watch, false),
        quit_requested: false,
        history,
        tasks: Seq::empty(),
        next_task_id: 0,
        active_tab: AppTab::Overview,
        settings_tab: SettingsTab::Config,
        bottom_tab: BottomTab::Tasks,
        config_dirty: false,
    }
}

impl AppState {
    /// The state at the start, with nothing done yet.
    pub fn start(config: Config, history: Vec<HistoryRecord>) -> (r: AppState)
        ensures
            r@ == start_state(config@, record_models(history@)),
    {
        let watch_active = watch_enabled(&config);
        let r = AppState {
            config,
            last_url: None,
            status: None,
            status_clear_at: None,
            watch_active,
            quit_requested: false,
            history,
            tasks: Vec::new(),
            next_task_id: 0,
            active_tab: AppTab::Overview,
            settings_tab: SettingsTab::Config,
            bottom_tab: BottomTab::Tasks,
            config_dirty: false,
        };
        assert(r@.tasks =~= Seq::empty());
        r
    }

    /// Begins a frame: a message whose time is over goes, and so does every image.
    pub fn begin_frame(&mut self, now: u64)
        ensures
            final(self)@ == frame_begun(old(self)@, now),
    {
        if let Some(clear_at) = self.status_clear_at {
            if now >= clear_at {
                self.status = None;
                self.status_clear_at = None;
            }
        }
        let ghost m = message_expired(old(self)@, now);
        assert(self@ =~= m);
        let ghost before = self@;
        let mut i: usize = 0;
        while i < self.tasks.len()
            invariant
                i <= self.tasks.len(),
                before == message_expired(old(self)@, now),
                self.tasks.len() == before.tasks.len(),
                self@ == (StateView { tasks: self@.tasks, ..before }),
                forall|k: int|
                    0 <= k < i ==> (#[trigger] self@.tasks[k]) == image_expired(
                        before.tasks[k],
                        now,
                    ),
                forall|k: int| i <= k < self.tasks.len() ==> self@.tasks[k] == before.tasks[k],
            decreases self.tasks.len() - i,
        {
            assert(self@.tasks[i as int] == self.tasks@[i as int]@);
            let ghost earlier = self@.tasks;
            assert(earlier[i as int] == before.tasks[i as int]);
            if let Some(exp) = self.tasks[i].data_expires_at {
                if now > exp && self.tasks[i].image_data.len() > 0 {
                    self.tasks[i].image_data = Vec::new();
                    self.tasks[i].data_expires_at = None;
                }
            }
            assert(self@.tasks[i as int] =~= image_expired(earlier[i as int], now));
            assert forall|k: int| 0 <= k < i + 1 implies (#[trigger] self@.tasks[k])
                == image_expired(before.tasks[k], now) by {
                if k < i {
                    assert(self@.tasks[k] == earlier[k]);
                }
            }
            assert forall|k: int| i < k < self.tasks.len() implies self@.tasks[k]
                == before.tasks[k] by {
                assert(self@.tasks[k] == earlier[k]);
            }
            i += 1;
        }
        assert(self@ =~= frame_begun(old(self)@, now));
    }

    /// Tells how the frame ends.
    pub fn frame_end(&self, close_requested: bool) -> (r: FrameEnd)
        ensures
            r == frame_end_of(self@, close_requested),
    {
        if close_requested && !self.quit_requested && tray_enabled(&self.config) {
            return FrameEnd::Hide;
        }
        if self.quit_requested {
            return FrameEnd::Quit;
        }
        FrameEnd::Draw
    }

    /// After how many milliseconds the window is drawn again at the latest: soon while
    /// an upload is under way or a message is about to pass, and seldom otherwise.
    pub fn repaint_millis(&self) -> (r: u64)
        ensures
            r == (if some_active(self@.tasks) || self@.status_clear_at is Some {
                200u64
            } else {
                2000u64
            }),
    {
        if has_active(&self.tasks) || self.status_clear_at.is_some() {
            200
        } else {
            2000
        }
    }

    /// Counts the tasks.
    pub fn counts(&self) -> (r: Counts)
        ensures
            r.active == count_tasks(self@.tasks, |st: StatusView| is_active(st)),
            r.failed == count_tasks(self@.tasks, |st: StatusView| st is Failed),
            r.succeeded == count_tasks(self@.tasks, |st: StatusView| st is Success),
    {
        let ghost all = self@.tasks;
        let ghost p = |t: TaskView| (|st: StatusView| is_active(st))(t.status);
        let ghost q = |t: TaskView| (|st: StatusView| st is Failed)(t.status);
        let ghost r = |t: TaskView| (|st: StatusView| st is Success)(t.status);
        let mut counts = Counts { active: 0, failed: 0, succeeded: 0 };
        let mut i: usize = 0;
        proof {
            reveal(Seq::filter);
            assert(all.take(0) =~= Seq::<TaskView>::empty());
        }
        while i < self.tasks.len()
            invariant
                i <= self.tasks.len(),
                all == task_models(self.tasks@),
                counts.active <= i,
                counts.failed <= i,
                counts.succeeded <= i,
                counts.active == all.take(i as int).filter(p).len(),
                counts.failed == all.take(i as int).filter(q).len(),
                counts.succeeded == all.take(i as int).filter(r).len(),
                p == |t: TaskView| (|st: StatusView| is_active(st))(t.status),
                q == |t: TaskView| (|st: StatusView| st is Failed)(t.status),
                r == |t: TaskView| (|st: StatusView| st is Success)(t.status),
            decreases self.tasks.len() - i,
        {
            proof {
                reveal(Seq::filter);
                assert(all.take(i + 1).drop_last() =~= all.take(i as int));
                assert(all.take(i + 1).last() == self.tasks@[i as int]@);
            }
            match &self.tasks[i].status {
                TaskStatus::Uploading | TaskStatus::Processing => {
                    counts.active = counts.active + 1;
                },
                TaskStatus::Retrying { .. } => {
                    counts.active = counts.active + 1;
                },
                TaskStatus::Failed { .. } => {
                    counts.failed = counts.failed + 1;
                },
                TaskStatus::Success(_, _) => {
                    counts.succeeded = counts.succeeded + 1;
                },
            }
            i += 1;
        }
        assert(all.take(i as int) =~= all);
        counts
    }

    /// Drops the tasks that are no longer under way.
    pub fn clear_finished(&mut self)
        ensures
            final(self)@ == (StateView {
                tasks: active_tasks(old(self)@.tasks),
                ..old(self)@
            }),
    {
        let under_way = |t: &UploadTask| -> (b: bool)
            ensures
                b == is_active(t@.status),
            { task_is_active(&t.status) };
        keep_only(&mut self.tasks, under_way, Ghost(|t: TaskView| is_active(t.status)));
        assert(self@ =~= (StateView { tasks: active_tasks(old(self)@.tasks), ..old(self)@ }));
    }

    /// Drops the tasks of that number.
    pub fn remove_task(&mut self, id: usize)
        ensures
            final(self)@ == (StateView {
                tasks: other_tasks(old(self)@.tasks, id),
                ..old(self)@
            }),
    {
        let is_other = |t: &UploadTask| -> (b: bool)
            ensures
                b == (t@.id != id),
            { t.id != id };
        keep_only(&mut self.tasks, is_other, Ghost(|t: TaskView| t.id != id));
        assert(self@ =~= (StateView { tasks: other_tasks(old(self)@.tasks, id), ..old(self)@ }));
    }

    /// Drops the records of that number from the history.
    pub fn delete_record(&mut self, id: i64)
        ensures
            final(self)@ == (StateView {
                history: other_records(old(self)@.history, id),
                ..old(self)@
            }),
    {
        let is_other = |r: &HistoryRecord| -> (b: bool)
            ensures
                b == (r@.id != id),
            { r.id != id };
        keep_only(&mut self.history, is_other, Ghost(|r: RecordView| r.id != id));
        assert(self@ =~= (StateView {
            history: other_records(old(self)@.history, id),
            ..old(self)@
        }));
    }

    /// Empties the history.
    pub fn clear_history(&mut self)
        ensures
            final(self)@ == (StateView { history: Seq::empty(), ..old(self)@ }),
    {
        self.history = Vec::new();
        assert(self@.history =~= Seq::empty());
    }

    /// Takes the history as it was read again.
    pub fn set_history(&mut self, history: Vec<HistoryRecord>)
        ensures
            final(self)@ == (StateView { history: record_models(history@), ..old(self)@ }),
    {
        self.history = history;
    }

    /// Says that a link was copied, if it was.
    pub fn copy_finished(&mut self, source: CopySource, copied: bool, now: u64)
        requires
            clock_in_range(now),
        ensures
            final(self)@ == copy_told(old(self)@, source, copied, now),
    {
        if copied {
            let msg = match source {
                CopySource::Tray(url) => joined("已复制: ", url.as_str()),
                CopySource::LastLink => "已复制到剪贴板".to_owned(),
                CopySource::Task => "已复制任务链接".to_owned(),
                CopySource::History => "已复制历史链接".to_owned(),
            };
            self.set_status_auto_clear(false, msg, now);
        }
    }

    /// Says what came of writing the settings: no error, or this one.
    pub fn save_finished(&mut self, error: Option<String>, now: u64)
        requires
            clock_in_range(now),
        ensures
            final(self)@ == config_saved(old(self)@, maybe_text(error), now),
    {
        match error {
            None => {
                self.config_dirty = false;
                self.set_status_auto_clear(false, "配置已保存".to_owned(), now);
            },
            Some(e) => {
                self.set_status_sticky(true, joined("保存失败: ", e.as_str()));
            },
        }
    }

    /// Takes a change of the settings; it is not saved yet. Tells whether the watch has
    /// to be given the settings at once.
    pub fn edit(&mut self, change: Edit) -> (share: bool)
        ensures
            final(self)@ == edited(old(self)@, change@),
            share == (change is Watch),
    {
        let share = matches!(change, Edit::Watch(_));
        match change {
            Edit::UploadUrl(t) => {
                self.config.upload_url = t;
            },
            Edit::Method(t) => {
                self.config.method = Some(t);
            },
            Edit::FileField(t) => {
                self.config.file_field = Some(t);
            },
            Edit::Response(t) => {
                self.config.response = Some(t);
            },
            Edit::Hotkey(t) => {
                self.config.hotkey = Some(t);
            },
            Edit::Copy(b) => {
                self.config.copy_to_clipboard = Some(b);
            },
            Edit::AutoRetry(b) => {
                self.config.auto_retry = Some(b);
            },
            Edit::Notify(b) => {
                self.config.notify_on_success = Some(b);
            },
            Edit::CloseToTray(b) => {
                self.config.close_to_tray = Some(b);
            },
            Edit::Watch(b) => {
                self.config.auto_watch = Some(b);
                self.watch_active = b;
            },
            Edit::Theme(m) => {
                self.config.theme_mode = Some(m);
            },
            Edit::Accent(a) => {
                self.config.accent_color = Some(a);
            },
        }
        self.config_dirty = true;
        share
    }

    /// Takes a click on an accent colour, and tells whether the colour in force changes;
    /// a click on that one changes nothing.
    pub fn choose_accent(&mut self, accent: AccentColor, clicked: bool) -> (changed: bool)
        ensures
            changed == (clicked && accent != accent_in(old(self)@.config)),
            final(self)@ == (if changed {
                edited(old(self)@, EditView::Accent(accent))
            } else {
                old(self)@
            }),
    {
        if clicked && config_accent_color(&self.config) != accent {
            let _ = self.edit(Edit::Accent(accent));
            true
        } else {
            false
        }
    }

    /// Takes a click on an appearance, and tells whether the one in force changes; a click
    /// on that one changes nothing.
    pub fn choose_theme(&mut self, mode: ThemeMode, clicked: bool) -> (changed: bool)
        ensures
            changed == (clicked && mode != theme_mode_in(old(self)@.config)),
            final(self)@ == (if changed {
                edited(old(self)@, EditView::Theme(mode))
            } else {
                old(self)@
            }),
    {
        if clicked && config_theme_mode(&self.config) != mode {
            let _ = self.edit(Edit::Theme(mode));
            true
        } else {
            false
        }
    }

    /// Makes every setting that the settings page edits present.
    pub fn open_settings_page(&mut self)
        ensures
            final(self)@ == (StateView { config: editable(old(self)@.config), ..old(self)@ }),
    {
        self.config.make_editable();
    }

    /// Takes a click on the tab of a page, and tells whether the page changes.
    pub fn select_page(&mut self, tab: AppTab, clicked: bool) -> (changed: bool)
        ensures
            changed == (clicked && tab != old(self)@.active_tab),
            final(self)@ == (if changed {
                StateView { active_tab: tab, ..old(self)@ }
            } else {
                old(self)@
            }),
    {
        if clicked && self.active_tab != tab {
            self.active_tab = tab;
            true
        } else {
            false
        }
    }

    /// Takes a click on the tab of a part of the settings, and tells whether it changes.
    pub fn select_settings(&mut self, tab: SettingsTab, clicked: bool) -> (changed: bool)
        ensures
            changed == (clicked && tab != old(self)@.settings_tab),
            final(self)@ == (if changed {
                StateView { settings_tab: tab, ..old(self)@ }
            } else {
                old(self)@
            }),
    {
        if clicked && self.settings_tab != tab {
            self.settings_tab = tab;
            true
        } else {
            false
        }
    }

    /// Takes a click on the tab of a list, and tells whether the history has to be read
    /// again because it comes to the screen.
    pub fn select_list(&mut self, tab: BottomTab, clicked: bool) -> (reload: bool)
        ensures
            reload == (clicked && tab != old(self)@.bottom_tab && tab == BottomTab::History),
            final(self)@ == (if clicked {
                StateView { bottom_tab: tab, ..old(self)@ }
            } else {
                old(self)@
            }),
    {
        if clicked && self.bottom_tab != tab {
            self.bottom_tab = tab;
            tab == BottomTab::History
        } else {
            false
        }
    }

    /// Goes to the activity page.
    pub fn go_to_activity(&mut self)
        ensures
            final(self)@ == (StateView { active_tab: AppTab::Activity, ..old(self)@ }),
    {
        self.active_tab = AppTab::Activity;
    }

    /// Goes to the settings.
    pub fn go_to_settings(&mut self)
        ensures
            final(self)@ == (StateView {
                active_tab: AppTab::Settings,
                settings_tab: SettingsTab::Config,
                ..old(self)@
            }),
    {
        self.active_tab = AppTab::Settings;
        self.settings_tab = SettingsTab::Config;
    }
}

/// Every task is counted once: as under way, as failed or as succeeded.
pub proof fn lemma_every_task_counted(tasks: Seq<TaskView>)
    ensures
        count_tasks(tasks, |st: StatusView| is_active(st)) + count_tasks(
            tasks,
            |st: StatusView| st is Failed,
        ) + count_tasks(tasks, |st: StatusView| st is Success) == tasks.len(),
        some_active(tasks) <==> count_tasks(tasks, |st: StatusView| is_active(st)) > 0,
    decreases tasks.len(),
{
    reveal(Seq::filter);
    if tasks.len() > 0 {
        let rest = tasks.drop_last();
        lemma_every_task_counted(rest);
        if some_active(rest) {
            let i = choose|i: int| 0 <= i < rest.len() && is_active((#[trigger] rest[i]).status);
            assert(is_active(tasks[i].status));
        }
        if is_active(tasks.last().status) {
            assert(is_active(tasks[tasks.len() - 1].status));
        }
        if some_active(tasks) {
            let i = choose|i: int| 0 <= i < tasks.len() && is_active((#[trigger] tasks[i]).status);
            if i < rest.len() {
                assert(is_active(rest[i].status));
            }
        }
    }
}

/// A change of the settings by hand.
pub enum Edit {
    UploadUrl(String),
    Method(String),
    FileField(String),
    Response(String),
    Hotkey(String),
    Copy(bool),
    AutoRetry(bool),
    Notify(bool),
    CloseToTray(bool),
    Watch(bool),
    Theme(ThemeMode),
    Accent(AccentColor),
}

/// The model of an [`Edit`].
pub enum EditView {
    UploadUrl(Seq<char>),
    Method(Seq<char>),
    FileField(Seq<char>),
    Response(Seq<char>),
    Hotkey(Seq<char>),
    Copy(bool),
    AutoRetry(bool),
    Notify(bool),
    CloseToTray(bool),
    Watch(bool),
    Theme(ThemeMode),
    Accent(AccentColor),
}

impl View for Edit {
    type V = EditView;

    open spec fn view(&self) -> EditView {
        match *self {
            Edit::UploadUrl(t) => EditView::UploadUrl(t@),
            Edit::Method(t) => EditView::Method(t@),
            Edit::FileField(t) => EditView::FileField(t@),
            Edit::Response(t) => EditView::Response(t@),
            Edit::Hotkey(t) => EditView::Hotkey(t@),
            Edit::Copy(b) => EditView::Copy(b),
            Edit::AutoRetry(b) => EditView::AutoRetry(b),
            Edit::Notify(b) => EditView::Notify(b),
            Edit::CloseToTray(b) => EditView::CloseToTray(b),
            Edit::Watch(b) => EditView::Watch(b),
            Edit::Theme(m) => EditView::Theme(m),
            Edit::Accent(a) => EditView::Accent(a),
        }
    }
}

/// The settings after a change.
pub open spec fn config_edited(c: ConfigView, change: EditView) -> ConfigView {
    match change {
        EditView::UploadUrl(t) => ConfigView { upload_url: t, ..c },
        EditView::Method(t) => ConfigView { method: Some(t), ..c },
        EditView::FileField(t) => ConfigView { file_field: Some(t), ..c },
        EditView::Response(t) => ConfigView { response: Some(t), ..c },
        EditView::Hotkey(t) => ConfigView { hotkey: Some(t), ..c },
        EditView::Copy(b) => ConfigView { copy_to_clipboard: Some(b), ..c },
        EditView::AutoRetry(b) => ConfigView { auto_retry: Some(b), ..c },
        EditView::Notify(b) => ConfigView { notify_on_success: Some(b), ..c },
        EditView::CloseToTray(b) => ConfigView { close_to_tray: Some(b), ..c },
        EditView::Watch(b) => ConfigView { auto_watch: Some(b), ..c },
        EditView::Theme(m) => ConfigView { theme_mode: Some(m), ..c },
        EditView::Accent(a) => ConfigView { accent_color: Some(a), ..c },
    }
}

/// The state after a change of the settings: it is not saved yet, and a change of the
/// watch is in force at once.
pub open spec fn edited(s: StateView, change: EditView) -> StateView {
    StateView {
        config: config_edited(s.config, change),
        watch_active: match change {
            EditView::Watch(b) => b,
            _ => s.watch_active,
        },
        config_dirty: true,
        ..s
    }
}

} // verus!
