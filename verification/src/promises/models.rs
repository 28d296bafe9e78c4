//! The models of values hold what the values hold.
use vstd::prelude::*;

use crate::config::{maybe_text, Config};
use crate::events::{action_models, Action, ActionView, AppEvent, EventView};
use crate::json::{found, maybe_json, Json, Node, NodeView};
use crate::request::{header_model, UploadRequest};
use crate::response::{outcome_model, UploadFailure};
use crate::shell::ShellConfig;
use crate::state::{
    clip_model, job_model, record_models, AppState, HistoryRecord, UploadJob,
};
use crate::task::{
    record_model, task_models, StatusView, TaskStatus, UploadEvent, UploadEventView, UploadTask,
};
use crate::tray::{item_models, maybe_event, menu_model, RecentItem, TrayEntry, TrayEntryView};
use crate::view::{
    card_models, history_models, lines_model, rows_model, Banner, HistoryCard, Line, Pill,
    SummaryRow, TaskCard,
};
use crate::window::{models, Edit, EditView};

verus! {

/// Absent things are absent in their models, and others are what they are.
pub proof fn lemma_absent_models(
    text: String,
    json: Json,
    job: UploadJob,
    clip: Vec<u8>,
    event: AppEvent,
    record: (String, String),
)
    ensures
        maybe_text(None) is None,
        maybe_text(Some(text)) == Some(text@),
        maybe_json(None) is None,
        maybe_json(Some(json)) == Some(json@),
        found(None) is None,
        found(Some(&json)) == Some(json@),
        job_model(None) is None,
        job_model(Some(job)) == Some((job.task_id, job.image@)),
        clip_model(None) is None,
        clip_model(Some(clip)) == Some(clip@),
        maybe_event(None) is None,
        maybe_event(Some(event)) == Some(event@),
        record_model(None) is None,
        record_model(Some(record)) == Some((record.0@, record.1@)),
{
}

/// The model of a JSON value holds its text and the models of all its parts, in order.
pub proof fn lemma_json_model(j: Json, i: int)
    ensures
        j@.text == j.text@,
        match j.node {
            Node::Str(s) => j@.node == NodeView::Str(s@),
            Node::Array(items) => j@.node matches NodeView::Array(parts) && parts.len()
                == items@.len() && (0 <= i < items@.len() ==> parts[i] == items@[i]@),
            Node::Object(fields) => j@.node matches NodeView::Object(parts) && parts.len()
                == fields@.len() && (0 <= i < fields@.len() ==> parts[i] == (
                fields@[i].0@,
                fields@[i].1@,
            )),
            Node::Other => j@.node is Other,
        },
{
}

/// The models of settings hold every setting.
pub proof fn lemma_config_models(c: Config, d: ShellConfig)
    ensures
        c@.upload_url == c.upload_url@,
        c@.method == maybe_text(c.method),
        c@.file_field == maybe_text(c.file_field),
        c@.headers == maybe_json(c.headers),
        c@.response == maybe_text(c.response),
        c@.copy_to_clipboard == c.copy_to_clipboard,
        c@.auto_watch == c.auto_watch,
        c@.auto_retry == c.auto_retry,
        c@.notify_on_success == c.notify_on_success,
        c@.close_to_tray == c.close_to_tray,
        c@.theme_mode == c.theme_mode,
        c@.accent_color == c.accent_color,
        c@.hotkey == maybe_text(c.hotkey),
        d@.upload_url == d.upload_url@,
        d@.method == maybe_text(d.method),
        d@.file_field == maybe_text(d.file_field),
        d@.headers == maybe_json(d.headers),
        d@.response == maybe_text(d.response),
        d@.copy_to_clipboard == d.copy_to_clipboard,
{
}

/// The model of a request holds every part of it, and every header line in order.
pub proof fn lemma_request_model(r: UploadRequest, i: int)
    ensures
        r@.method == r.method,
        r@.url == r.url@,
        r@.file_field == r.file_field@,
        r@.file_name == r.file_name@,
        r@.mime == r.mime@,
        r@.image == r.image@,
        r@.headers == header_model(r.headers@),
        header_model(r.headers@).len() == r.headers@.len(),
        0 <= i < r.headers@.len() ==> header_model(r.headers@)[i] == (
            r.headers@[i].0@,
            r.headers@[i].1@,
        ),
{
}

/// The model of an outcome holds the link and the `src`, or the message and whether the
/// failure may pass.
pub proof fn lemma_outcome_model(url: String, src: String, f: UploadFailure)
    ensures
        outcome_model(Ok((url, src))) == Ok::<_, (Seq<char>, bool)>((url@, src@)),
        outcome_model(Err(f)) == Err::<(Seq<char>, Seq<char>), _>((f.message@, f.retryable)),
{
}

/// The model of a stage is that stage, with what it carries.
pub proof fn lemma_status_model(status: TaskStatus)
    ensures
        match status {
            TaskStatus::Uploading => status@ is Uploading,
            TaskStatus::Processing => status@ is Processing,
            TaskStatus::Retrying { message, attempt, max_retries, wait_seconds } => status@
                == (StatusView::Retrying { message: message@, attempt, max_retries, wait_seconds }),
            TaskStatus::Success(url, src) => status@ == StatusView::Success(url@, src@),
            TaskStatus::Failed { message, retryable } => status@ == (StatusView::Failed {
                message: message@,
                retryable,
            }),
        },
{
}

/// The models of tasks and records hold every part, and their lists every item in order.
pub proof fn lemma_list_models(tasks: Seq<UploadTask>, records: Seq<HistoryRecord>, i: int)
    ensures
        task_models(tasks).len() == tasks.len(),
        0 <= i < tasks.len() ==> ({
            let t = tasks[i];
            let m = task_models(tasks)[i];
            &&& m.id == t.id
            &&& m.status == t.status@
            &&& m.image_data == t.image_data@
            &&& m.created_at == t.created_at@
            &&& m.data_expires_at == t.data_expires_at
            &&& m.retry_count == t.retry_count
        }),
        record_models(records).len() == records.len(),
        0 <= i < records.len() ==> ({
            let r = records[i];
            let m = record_models(records)[i];
            &&& m.id == r.id
            &&& m.url == r.url@
            &&& m.src == r.src@
            &&& m.uploaded_at == r.uploaded_at@
        }),
        models(tasks) == task_models(tasks),
        models(records) == record_models(records),
{
    assert(models(tasks) =~= task_models(tasks));
    assert(models(records) =~= record_models(records));
}

/// The model of the state holds every part of it.
pub proof fn lemma_state_model(s: AppState)
    ensures
        s@.config == s.config@,
        s@.last_url == maybe_text(s.last_url),
        s.status is None ==> s@.status is None,
        s.status matches Some(m) ==> s@.status == Some((m.0, m.1@)),
        s@.status_clear_at == s.status_clear_at,
        s@.watch_active == s.watch_active,
        s@.quit_requested == s.quit_requested,
        s@.history == record_models(s.history@),
        s@.tasks == task_models(s.tasks@),
        s@.next_task_id == s.next_task_id,
        s@.active_tab == s.active_tab,
        s@.settings_tab == s.settings_tab,
        s@.bottom_tab == s.bottom_tab,
        s@.config_dirty == s.config_dirty,
{
}

/// The models of events are those events, with what they carry.
pub proof fn lemma_event_models(event: AppEvent, upload: UploadEvent)
    ensures
        match event {
            AppEvent::TaskProgress(id, status) => event@ == EventView::TaskProgress(id, status@),
            AppEvent::WatchUpload(img) => event@ == EventView::WatchUpload(img@),
            AppEvent::RetryTask(id) => event@ == EventView::RetryTask(id),
            AppEvent::TrayShowWindow => event@ is TrayShowWindow,
            AppEvent::TrayUpload => event@ is TrayUpload,
            AppEvent::TrayToggleWatch => event@ is TrayToggleWatch,
            AppEvent::TrayQuit => event@ is TrayQuit,
            AppEvent::TrayCopyUrl(url) => event@ == EventView::TrayCopyUrl(url@),
        },
        match upload {
            UploadEvent::BuildFailed(e) => upload@ == UploadEventView::BuildFailed(e@),
            UploadEvent::SendFailed(e, b) => upload@ == UploadEventView::SendFailed(e@, b),
            UploadEvent::Sent => upload@ is Sent,
            UploadEvent::Answered(code, text) => upload@ == UploadEventView::Answered(code, text@),
        },
{
}

/// The models of actions are those actions, with what they carry, in their order.
pub proof fn lemma_action_models(actions: Seq<Action>, i: int)
    requires
        0 <= i < actions.len(),
    ensures
        action_models(actions).len() == actions.len(),
        ({
            let m = action_models(actions)[i];
            match actions[i] {
                Action::Upload(job) => m == ActionView::Upload(job.task_id, job.image@),
                Action::RetryAfter(id, secs) => m == ActionView::RetryAfter(id, secs),
                Action::CopyText(t) => m == ActionView::CopyText(t@),
                Action::CopyTrayLink(t) => m == ActionView::CopyTrayLink(t@),
                Action::Notify(a, b) => m == ActionView::Notify(a@, b@),
                Action::ReloadHistory => m is ReloadHistory,
                Action::ReadForUpload => m is ReadForUpload,
                Action::ReadForRetry(id) => m == ActionView::ReadForRetry(id),
                Action::ShowWindow => m is ShowWindow,
                Action::ShareConfig => m is ShareConfig,
            }
        }),
{
}

/// The models of changes are those changes, with what they carry.
pub proof fn lemma_edit_models(e: Edit)
    ensures
        match e {
            Edit::UploadUrl(t) => e@ == EditView::UploadUrl(t@),
            Edit::Method(t) => e@ == EditView::Method(t@),
            Edit::FileField(t) => e@ == EditView::FileField(t@),
            Edit::Response(t) => e@ == EditView::Response(t@),
            Edit::Hotkey(t) => e@ == EditView::Hotkey(t@),
            Edit::Copy(b) => e@ == EditView::Copy(b),
            Edit::AutoRetry(b) => e@ == EditView::AutoRetry(b),
            Edit::Notify(b) => e@ == EditView::Notify(b),
            Edit::CloseToTray(b) => e@ == EditView::CloseToTray(b),
            Edit::Watch(b) => e@ == EditView::Watch(b),
            Edit::Theme(m) => e@ == EditView::Theme(m),
            Edit::Accent(a) => e@ == EditView::Accent(a),
        },
{
}

/// The models of the tray's entries hold their texts and what goes with them, in order.
pub proof fn lemma_tray_models(entries: Seq<TrayEntry>, items: Seq<RecentItem>, i: int)
    ensures
        menu_model(entries).len() == entries.len(),
        0 <= i < entries.len() ==> ({
            let m = menu_model(entries)[i];
            match entries[i] {
                TrayEntry::Upload(t) => m == TrayEntryView::Upload(t@),
                TrayEntry::Watch(t, on) => m == TrayEntryView::Watch(t@, on),
                TrayEntry::Recent(t, none) => m == TrayEntryView::Recent(t@, none@),
                TrayEntry::Status(t) => m == TrayEntryView::Status(t@),
                TrayEntry::Show(t) => m == TrayEntryView::Show(t@),
                TrayEntry::Quit(t) => m == TrayEntryView::Quit(t@),
                TrayEntry::Separator => m is Separator,
            }
        }),
        item_models(items).len() == items.len(),
        0 <= i < items.len() ==> item_models(items)[i] == (items[i].id@, items[i].label@),
{
}

/// The models of what is shown hold every part of it, in order.
pub proof fn lemma_shown_models(
    pill: Pill,
    banner: Banner,
    rows: Seq<SummaryRow>,
    lines: Seq<Line>,
    cards: Seq<TaskCard>,
    records: Seq<HistoryCard>,
    i: int,
)
    ensures
        pill@.text == pill.text@ && pill@.fill == pill.fill && pill@.color == pill.color,
        banner@.fill == banner.fill && banner@.stroke == banner.stroke && banner@.icon
            == banner.icon@ && banner@.title == banner.title@ && banner@.detail == banner.detail@,
        rows_model(rows).len() == rows.len(),
        0 <= i < rows.len() ==> rows_model(rows)[i] == (
            rows[i].label@,
            rows[i].value@,
            rows[i].tint,
        ),
        lines_model(lines).len() == lines.len(),
        0 <= i < lines.len() ==> lines_model(lines)[i] == (
            lines[i].kind,
            lines[i].text@,
            lines[i].color,
        ),
        card_models(cards).len() == cards.len(),
        0 <= i < cards.len() ==> ({
            let c = cards[i];
            let m = card_models(cards)[i];
            &&& m.id == c.id
            &&& m.badge == c.badge@
            &&& m.fill == c.fill
            &&& m.stroke == c.stroke
            &&& m.created_at == c.created_at@
            &&& m.removable == c.removable
            &&& m.link == maybe_text(c.link)
            &&& m.retryable == c.retryable
            &&& m.lines == lines_model(c.lines@)
        }),
        history_models(records).len() == records.len(),
        0 <= i < records.len() ==> ({
            let c = records[i];
            let m = history_models(records)[i];
            &&& m.id == c.id
            &&& m.badge == c.badge@
            &&& m.uploaded_at == c.uploaded_at@
            &&& m.url == c.url@
            &&& m.lines == lines_model(c.lines@)
        }),
{
}

} // verus!
