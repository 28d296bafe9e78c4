//! What the window shows: texts, badges, cards and their colours.
use vstd::prelude::*;

use crate::config::{
    accent_in, config_accent_color, config_theme_mode, copy_enabled, flag_or, notify_enabled,
    theme_mode_in, tray_enabled, watch_enabled, AccentColor, ThemeMode,
};
use crate::digits::{decimal, decimal_text};
use crate::state::{AppState, BottomTab, HistoryRecord, RecordView, StateView};
use crate::task::{
    has_active, is_active, some_active, StatusView, TaskStatus, TaskView, UploadTask,
};
use crate::text::{joined, same_text};
use crate::theme::{
    accent_color_soft, accent_of, apple_green, apple_orange, apple_red, fade, faded_by, green,
    opaque, opaque_of, orange, red, see_through, with_alpha, Paint, Rgba, Theme, ThemePalette,
};
use crate::window::{count_tasks, Counts};

verus! {

/// A short text on a coloured ground.
pub struct Pill {
    pub text: String,
    pub fill: Paint,
    pub color: Paint,
}

/// The model of a [`Pill`].
pub struct PillView {
    pub text: Seq<char>,
    pub fill: Paint,
    pub color: Paint,
}

impl View for Pill {
    type V = PillView;

    open spec fn view(&self) -> PillView {
        PillView { text: self.text@, fill: self.fill, color: self.color }
    }
}

/// The colours of a tile with a number: its ground and its rim.
pub fn metric_paints(tint: Rgba, dark_mode: bool) -> (r: (Paint, Paint))
    ensures
        r.0 == faded_by(tint, dark_mode, 22, 10),
        r.1 == Paint::Faded(tint, 35),
{
    (fade(tint, dark_mode, 22, 10), Paint::Faded(tint, 35))
}

/// The colours of the value in a summary: its ground and its text.
pub fn summary_paints(tint: Rgba, dark_mode: bool) -> (r: (Paint, Paint))
    ensures
        r.0 == faded_by(tint, dark_mode, 26, 12),
        r.1 == Paint::Faded(tint, 95),
{
    (fade(tint, dark_mode, 26, 12), Paint::Faded(tint, 95))
}

/// The badge that says whether uploads are under way: on a wide window with their
/// number.
pub open spec fn upload_badge_of(
    s: StateView,
    wide: bool,
    palette: ThemePalette,
    dark_mode: bool,
) -> PillView {
    if some_active(s.tasks) {
        PillView {
            text: if wide {
                decimal(count_tasks(s.tasks, |st: StatusView| is_active(st))) + " 个任务处理中"@
            } else {
                "正在处理任务"@
            },
            fill: faded_by(accent_of(accent_in(s.config)), dark_mode, 28, 12),
            color: Paint::Plain(palette.accent),
        }
    } else {
        PillView {
            text: "准备就绪"@,
            fill: faded_by(green(), dark_mode, 25, 12),
            color: Paint::Plain(green()),
        }
    }
}

/// The system's own appearance, where it is known.
#[derive(Debug, Clone, Copy, PartialEq, Eq, Structural)]
pub enum SystemTheme {
    Known(Theme),
    Unknown,
}

/// What the settings say of the system's appearance.
pub fn system_theme_text(theme: SystemTheme) -> (r: &'static str)
    ensures
        r@ == (match theme {
            SystemTheme::Known(Theme::Dark) => "系统当前为深色"@,
            SystemTheme::Known(Theme::Light) => "系统当前为浅色"@,
            SystemTheme::Unknown => "当前平台没有提供系统主题信息"@,
        }),
{
    match theme {
        SystemTheme::Known(Theme::Dark) => "系统当前为深色",
        SystemTheme::Known(Theme::Light) => "系统当前为浅色",
        SystemTheme::Unknown => "当前平台没有提供系统主题信息",
    }
}

/// The system's appearance in a word.
pub open spec fn system_theme_word(theme: SystemTheme) -> Seq<char> {
    match theme {
        SystemTheme::Known(Theme::Dark) => "深色"@,
        SystemTheme::Known(Theme::Light) => "浅色"@,
        SystemTheme::Unknown => "未知"@,
    }
}

/// A line of a summary.
pub struct SummaryRow {
    pub label: &'static str,
    pub value: String,
    pub tint: Rgba,
}

/// The lines of a summary: label, value and colour of each.
pub open spec fn rows_model(v: Seq<SummaryRow>) -> Seq<(Seq<char>, Seq<char>, Rgba)> {
    Seq::new(v.len(), |i: int| (v[i].label@, v[i].value@, v[i].tint))
}

/// On or off, in a word.
pub open spec fn on_off(on: bool) -> Seq<char> {
    if on {
        "开启"@
    } else {
        "关闭"@
    }
}

/// On or off, in a word.
fn on_off_text(on: bool) -> (r: String)
    ensures
        r@ == on_off(on),
{
    if on {
        "开启".to_owned()
    } else {
        "关闭".to_owned()
    }
}

/// What the banner of the upload page shows.
pub struct Banner {
    pub fill: Paint,
    pub stroke: Paint,
    pub icon: &'static str,
    pub title: String,
    pub detail: &'static str,
}

/// The model of a [`Banner`].
pub struct BannerView {
    pub fill: Paint,
    pub stroke: Paint,
    pub icon: Seq<char>,
    pub title: Seq<char>,
    pub detail: Seq<char>,
}

impl View for Banner {
    type V = BannerView;

    open spec fn view(&self) -> BannerView {
        BannerView {
            fill: self.fill,
            stroke: self.stroke,
            icon: self.icon@,
            title: self.title@,
            detail: self.detail@,
        }
    }
}

/// The banner of the upload page: the message that is there, else that an upload is
/// under way, else that there is nothing to do.
pub open spec fn banner_of(s: StateView, palette: ThemePalette) -> BannerView {
    match s.status {
        Some((true, msg)) => BannerView {
            fill: Paint::Faded(red(), 10),
            stroke: Paint::Faded(red(), 35),
            icon: "失败"@,
            title: msg,
            detail: "请检查网络、响应解析规则或上传地址。"@,
        },
        Some((false, msg)) => BannerView {
            fill: Paint::Faded(green(), 10),
            stroke: Paint::Faded(green(), 35),
            icon: "完成"@,
            title: msg,
            detail: "状态提示会在几秒后自动清除。"@,
        },
        None => if some_active(s.tasks) {
            BannerView {
                fill: Paint::Faded(palette.accent, 12),
                stroke: Paint::Faded(palette.accent, 35),
                icon: "处理中"@,
                title: "正在上传新的剪贴板图片"@,
                detail: "文件已读取，等待远端完成响应。"@,
            }
        } else {
            BannerView {
                fill: Paint::Plain(palette.row),
                stroke: Paint::Plain(palette.border),
                icon: "待命"@,
                title: "应用已就绪"@,
                detail: "截图后可以直接上传，也可以交给自动监听。"@,
            }
        },
    }
}

/// Which button stands over the list on the activity page.
#[derive(Debug, Clone, Copy, PartialEq, Eq, Structural)]
pub enum ClearButton {
    /// None: the list is empty.
    Absent,
    /// The one that drops the tasks that are no longer under way.
    Finished,
    /// The one that empties the history.
    History,
}

/// What the tab of the tasks says: how many are under way, else how many failed, else
/// how many there are.
pub open spec fn task_label_of(active: nat, failed: nat, all: nat) -> Seq<char> {
    if active > 0 {
        "任务 "@ + decimal(active)
    } else if failed > 0 {
        "任务 "@ + decimal(failed) + " 失败"@
    } else {
        "任务 "@ + decimal(all)
    }
}

/// How a line on a card is set.
#[derive(Debug, Clone, Copy, PartialEq, Eq, Structural)]
pub enum LineKind {
    /// What goes on, beside a sign that it does.
    Progress,
    /// Why an upload failed.
    Failure,
    /// When it is tried again.
    Wait,
    /// A link.
    Link,
    /// The `src` of a link.
    Source,
    /// What can be done.
    Advice,
}

/// A line on a card.
pub struct Line {
    pub kind: LineKind,
    pub text: String,
    pub color: Rgba,
}

/// The lines on a card: kind, text and colour of each.
pub open spec fn lines_model(v: Seq<Line>) -> Seq<(LineKind, Seq<char>, Rgba)> {
    Seq::new(v.len(), |i: int| (v[i].kind, v[i].text@, v[i].color))
}

/// The card of a task.
pub struct TaskCard {
    pub id: usize,
    pub badge: Pill,
    pub fill: Rgba,
    pub stroke: Paint,
    pub created_at: String,
    /// Whether the task can be removed.
    pub removable: bool,
    /// The link that can be copied and opened.
    pub link: Option<String>,
    /// Whether the task can be tried again.
    pub retryable: bool,
    pub lines: Vec<Line>,
}

/// The model of a [`TaskCard`].
#[verifier::ext_equal]
pub struct TaskCardView {
    pub id: usize,
    pub badge: PillView,
    pub fill: Rgba,
    pub stroke: Paint,
    pub created_at: Seq<char>,
    pub removable: bool,
    pub link: Option<Seq<char>>,
    pub retryable: bool,
    pub lines: Seq<(LineKind, Seq<char>, Rgba)>,
}

impl View for TaskCard {
    type V = TaskCardView;

    open spec fn view(&self) -> TaskCardView {
        TaskCardView {
            id: self.id,
            badge: self.badge@,
            fill: self.fill,
            stroke: self.stroke,
            created_at: self.created_at@,
            removable: self.removable,
            link: match self.link {
                Some(l) => Some(l@),
                None => None,
            },
            retryable: self.retryable,
            lines: lines_model(self.lines@),
        }
    }
}

/// The badge of a task.
pub open spec fn badge_of(
    status: StatusView,
    accent: AccentColor,
    palette: ThemePalette,
    dark_mode: bool,
) -> PillView {
    match status {
        StatusView::Uploading => PillView {
            text: "上传中"@,
            fill: faded_by(orange(), dark_mode, 25, 12),
            color: Paint::Plain(orange()),
        },
        StatusView::Processing => PillView {
            text: "处理中"@,
            fill: faded_by(accent_of(accent), dark_mode, 28, 12),
            color: Paint::Plain(palette.accent),
        },
        StatusView::Success(_, _) => PillView {
            text: "已完成"@,
            fill: faded_by(green(), dark_mode, 25, 12),
            color: Paint::Plain(green()),
        },
        StatusView::Retrying { .. } => PillView {
            text: "自动重试"@,
            fill: faded_by(orange(), dark_mode, 25, 12),
            color: Paint::Plain(orange()),
        },
        StatusView::Failed { .. } => PillView {
            text: "失败"@,
            fill: faded_by(red(), dark_mode, 25, 12),
            color: Paint::Plain(red()),
        },
    }
}

/// The ground and the rim of a task's card.
pub open spec fn card_paints(
    status: StatusView,
    palette: ThemePalette,
    dark_mode: bool,
) -> (Rgba, Paint) {
    match status {
        StatusView::Uploading | StatusView::Retrying { .. } => (
            if dark_mode {
                opaque_of(53, 39, 25)
            } else {
                opaque_of(255, 250, 242)
            },
            Paint::Faded(orange(), 30),
        ),
        StatusView::Processing => (
            if dark_mode {
                opaque_of(25, 39, 55)
            } else {
                opaque_of(243, 249, 255)
            },
            Paint::Faded(palette.accent, 30),
        ),
        StatusView::Success(_, _) => (
            if dark_mode {
                opaque_of(23, 43, 31)
            } else {
                opaque_of(244, 252, 246)
            },
            Paint::Faded(green(), 30),
        ),
        StatusView::Failed { .. } => (
            if dark_mode {
                opaque_of(57, 28, 31)
            } else {
                opaque_of(255, 245, 245)
            },
            Paint::Faded(red(), 30),
        ),
    }
}

/// The line for the `src` of a link, where there is one.
pub open spec fn source_line(src: Seq<char>, palette: ThemePalette) -> Seq<
    (LineKind, Seq<char>, Rgba),
> {
    if src.len() == 0 {
        seq![]
    } else {
        seq![(LineKind::Source, "src: "@ + src, palette.muted)]
    }
}

/// When a task is tried again, in words.
pub open spec fn wait_text(wait_seconds: u64, attempt: u8, max_retries: u8) -> Seq<char> {
    "将在 "@ + decimal(wait_seconds as nat) + " 秒后自动重试（第 "@ + decimal(attempt as nat) + "/"@
        + decimal(max_retries as nat) + " 次）。"@
}

/// The lines on a task's card.
pub open spec fn card_lines(t: TaskView, palette: ThemePalette) -> Seq<
    (LineKind, Seq<char>, Rgba),
> {
    match t.status {
        StatusView::Uploading => seq![
            (LineKind::Progress, "正在上传剪贴板图片到服务器。"@, palette.muted),
        ],
        StatusView::Processing => seq![
            (LineKind::Progress, "文件已发送完成，正在等待服务端处理结果。"@, palette.muted),
        ],
        StatusView::Retrying { message, attempt, max_retries, wait_seconds } => seq![
            (LineKind::Failure, "最近一次失败: "@ + message, orange()),
            (LineKind::Wait, wait_text(wait_seconds, attempt, max_retries), palette.muted),
        ],
        StatusView::Success(url, src) => seq![(LineKind::Link, url, palette.accent)] + source_line(
            src,
            palette,
        ),
        StatusView::Failed { message, retryable } => seq![(LineKind::Failure, message, red())] + (
        if retryable {
            seq![]
        } else {
            seq![
                (
                    LineKind::Advice,
                    "这类错误不会自动重试，请检查上传地址、请求头或响应解析配置。"@,
                    palette.muted,
                ),
            ]
        }) + (if t.image_data.len() == 0 {
            seq![
                (LineKind::Advice, "图片缓存已释放，重试时会重新读取剪贴板。"@, palette.muted),
            ]
        } else {
            seq![]
        }),
    }
}

/// The card of a task: one under way cannot be removed, unless it waits for a retry,
/// one that succeeded offers its link, and one that failed can be tried again.
pub open spec fn card_of(
    t: TaskView,
    accent: AccentColor,
    palette: ThemePalette,
    dark_mode: bool,
) -> TaskCardView {
    TaskCardView {
        id: t.id,
        badge: badge_of(t.status, accent, palette, dark_mode),
        fill: card_paints(t.status, palette, dark_mode).0,
        stroke: card_paints(t.status, palette, dark_mode).1,
        created_at: t.created_at,
        removable: t.status is Success || t.status is Retrying || t.status is Failed,
        link: match t.status {
            StatusView::Success(url, _) => Some(url),
            _ => None,
        },
        retryable: t.status is Failed,
        lines: card_lines(t, palette),
    }
}

/// The models of a list of cards.
pub open spec fn card_models(v: Seq<TaskCard>) -> Seq<TaskCardView> {
    Seq::new(v.len(), |i: int| v[i]@)
}

/// The cards of the tasks, the latest first.
pub open spec fn cards_of(s: StateView, palette: ThemePalette, dark_mode: bool) -> Seq<
    TaskCardView,
> {
    Seq::new(
        s.tasks.len(),
        |i: int|
            card_of(s.tasks[s.tasks.len() - 1 - i], accent_in(s.config), palette, dark_mode),
    )
}

/// Writes a line.
fn line(kind: LineKind, text: &str, color: Rgba) -> (r: Line)
    ensures
        r.kind == kind,
        r.text@ == text@,
        r.color == color,
{
    Line { kind, text: text.to_owned(), color }
}

/// Writes the badge of a task.
fn task_badge(
    status: &TaskStatus,
    accent: AccentColor,
    palette: ThemePalette,
    dark_mode: bool,
) -> (r: Pill)
    ensures
        r@ == badge_of(status@, accent, palette, dark_mode),
{
    match status {
        TaskStatus::Uploading => Pill {
            text: "上传中".to_owned(),
            fill: fade(apple_orange(), dark_mode, 25, 12),
            color: Paint::Plain(apple_orange()),
        },
        TaskStatus::Processing => Pill {
            text: "处理中".to_owned(),
            fill: accent_color_soft(accent, dark_mode),
            color: Paint::Plain(palette.accent),
        },
        TaskStatus::Success(_, _) => Pill {
            text: "已完成".to_owned(),
            fill: fade(apple_green(), dark_mode, 25, 12),
            color: Paint::Plain(apple_green()),
        },
        TaskStatus::Retrying { .. } => Pill {
            text: "自动重试".to_owned(),
            fill: fade(apple_orange(), dark_mode, 25, 12),
            color: Paint::Plain(apple_orange()),
        },
        TaskStatus::Failed { .. } => Pill {
            text: "失败".to_owned(),
            fill: fade(apple_red(), dark_mode, 25, 12),
            color: Paint::Plain(apple_red()),
        },
    }
}

/// Picks one colour on a dark ground and another on a light one.
fn by_ground(dark_mode: bool, dark: Rgba, light: Rgba) -> (r: Rgba)
    ensures
        r == (if dark_mode {
            dark
        } else {
            light
        }),
{
    if dark_mode {
        dark
    } else {
        light
    }
}

/// Picks the ground and the rim of a task's card.
fn task_paints(status: &TaskStatus, palette: ThemePalette, dark_mode: bool) -> (r: (Rgba, Paint))
    ensures
        r == card_paints(status@, palette, dark_mode),
{
    match status {
        TaskStatus::Uploading => (
            by_ground(dark_mode, opaque(53, 39, 25), opaque(255, 250, 242)),
            Paint::Faded(apple_orange(), 30),
        ),
        TaskStatus::Retrying { .. } => (
            by_ground(dark_mode, opaque(53, 39, 25), opaque(255, 250, 242)),
            Paint::Faded(apple_orange(), 30),
        ),
        TaskStatus::Processing => (
            by_ground(dark_mode, opaque(25, 39, 55), opaque(243, 249, 255)),
            Paint::Faded(palette.accent, 30),
        ),
        TaskStatus::Success(_, _) => (
            by_ground(dark_mode, opaque(23, 43, 31), opaque(244, 252, 246)),
            Paint::Faded(apple_green(), 30),
        ),
        TaskStatus::Failed { .. } => (
            by_ground(dark_mode, opaque(57, 28, 31), opaque(255, 245, 245)),
            Paint::Faded(apple_red(), 30),
        ),
    }
}

/// Writes the lines on a task's card.
fn task_lines(t: &UploadTask, palette: ThemePalette) -> (r: Vec<Line>)
    ensures
        lines_model(r@) == card_lines(t@, palette),
{
    let mut lines: Vec<Line> = Vec::new();
    match &t.status {
        TaskStatus::Uploading => {
            lines.push(line(LineKind::Progress, "正在上传剪贴板图片到服务器。", palette.muted));
        },
        TaskStatus::Processing => {
            lines.push(
                line(
                    LineKind::Progress,
                    "文件已发送完成，正在等待服务端处理结果。",
                    palette.muted,
                ),
            );
        },
        TaskStatus::Retrying { message, attempt, max_retries, wait_seconds } => {
            let why = joined("最近一次失败: ", message.as_str());
            lines.push(line(LineKind::Failure, why.as_str(), apple_orange()));
            let mut wait = "将在 ".to_owned();
            wait.append(decimal_text(*wait_seconds).as_str());
            wait.append(" 秒后自动重试（第 ");
            wait.append(decimal_text(*attempt as u64).as_str());
            wait.append("/");
            wait.append(decimal_text(*max_retries as u64).as_str());
            wait.append(" 次）。");
            lines.push(line(LineKind::Wait, wait.as_str(), palette.muted));
        },
        TaskStatus::Success(url, src) => {
            lines.push(line(LineKind::Link, url.as_str(), palette.accent));
            if !src.as_str().is_empty() {
                let text = joined("src: ", src.as_str());
                lines.push(line(LineKind::Source, text.as_str(), palette.muted));
            }
        },
        TaskStatus::Failed { message, retryable } => {
            lines.push(line(LineKind::Failure, message.as_str(), apple_red()));
            if !*retryable {
                lines.push(
                    line(
                        LineKind::Advice,
                        "这类错误不会自动重试，请检查上传地址、请求头或响应解析配置。",
                        palette.muted,
                    ),
                );
            }
            if t.image_data.len() == 0 {
                lines.push(
                    line(
                        LineKind::Advice,
                        "图片缓存已释放，重试时会重新读取剪贴板。",
                        palette.muted,
                    ),
                );
            }
        },
    }
    assert(lines_model(lines@) =~= card_lines(t@, palette));
    lines
}

/// Writes the card of a task.
fn task_card(
    t: &UploadTask,
    accent: AccentColor,
    palette: ThemePalette,
    dark_mode: bool,
) -> (r: TaskCard)
    ensures
        r@ == card_of(t@, accent, palette, dark_mode),
{
    let (fill, stroke) = task_paints(&t.status, palette, dark_mode);
    let (removable, retryable) = match &t.status {
        TaskStatus::Uploading => (false, false),
        TaskStatus::Processing => (false, false),
        TaskStatus::Retrying { .. } => (true, false),
        TaskStatus::Success(_, _) => (true, false),
        TaskStatus::Failed { .. } => (true, true),
    };
    let link = match &t.status {
        TaskStatus::Success(url, _) => Some(url.clone()),
        _ => None,
    };
    TaskCard {
        id: t.id,
        badge: task_badge(&t.status, accent, palette, dark_mode),
        fill,
        stroke,
        created_at: t.created_at.clone(),
        removable,
        link,
        retryable,
        lines: task_lines(t, palette),
    }
}

/// The card of a record of the history.
pub struct HistoryCard {
    pub id: i64,
    pub badge: Pill,
    pub uploaded_at: String,
    pub url: String,
    pub lines: Vec<Line>,
}

/// The model of a [`HistoryCard`].
#[verifier::ext_equal]
pub struct HistoryCardView {
    pub id: i64,
    pub badge: PillView,
    pub uploaded_at: Seq<char>,
    pub url: Seq<char>,
    pub lines: Seq<(LineKind, Seq<char>, Rgba)>,
}

impl View for HistoryCard {
    type V = HistoryCardView;

    open spec fn view(&self) -> HistoryCardView {
        HistoryCardView {
            id: self.id,
            badge: self.badge@,
            uploaded_at: self.uploaded_at@,
            url: self.url@,
            lines: lines_model(self.lines@),
        }
    }
}

/// The card of a record of the history.
pub open spec fn history_card_of(
    r: RecordView,
    palette: ThemePalette,
    dark_mode: bool,
) -> HistoryCardView {
    HistoryCardView {
        id: r.id,
        badge: PillView {
            text: "已上传"@,
            fill: faded_by(green(), dark_mode, 25, 12),
            color: Paint::Plain(green()),
        },
        uploaded_at: r.uploaded_at,
        url: r.url,
        lines: seq![(LineKind::Link, r.url, palette.accent)] + source_line(r.src, palette),
    }
}

/// The models of a list of history cards.
pub open spec fn history_models(v: Seq<HistoryCard>) -> Seq<HistoryCardView> {
    Seq::new(v.len(), |i: int| v[i]@)
}

/// Writes the card of a record of the history.
fn record_card(r: &HistoryRecord, palette: ThemePalette, dark_mode: bool) -> (c: HistoryCard)
    ensures
        c@ == history_card_of(r@, palette, dark_mode),
{
    let mut lines: Vec<Line> = Vec::new();
    lines.push(line(LineKind::Link, r.url.as_str(), palette.accent));
    if !r.src.as_str().is_empty() {
        let text = joined("src: ", r.src.as_str());
        lines.push(line(LineKind::Source, text.as_str(), palette.muted));
    }
    let c = HistoryCard {
        id: r.id,
        badge: Pill {
            text: "已上传".to_owned(),
            fill: fade(apple_green(), dark_mode, 25, 12),
            color: Paint::Plain(apple_green()),
        },
        uploaded_at: r.uploaded_at.clone(),
        url: r.url.clone(),
        lines,
    };
    assert(c@ =~= history_card_of(r@, palette, dark_mode));
    c
}

impl AppState {
    /// The badge that says whether uploads are under way.
    pub fn upload_badge(&self, wide: bool, palette: ThemePalette, dark_mode: bool) -> (r: Pill)
        ensures
            r@ == upload_badge_of(self@, wide, palette, dark_mode),
    {
        if has_active(&self.tasks) {
            let text = if wide {
                let counts: Counts = self.counts();
                joined(decimal_text(counts.active as u64).as_str(), " 个任务处理中")
            } else {
                "正在处理任务".to_owned()
            };
            Pill {
                text,
                fill: accent_color_soft(config_accent_color(&self.config), dark_mode),
                color: Paint::Plain(palette.accent),
            }
        } else {
            Pill {
                text: "准备就绪".to_owned(),
                fill: fade(apple_green(), dark_mode, 25, 12),
                color: Paint::Plain(apple_green()),
            }
        }
    }

    /// The badge that says whether the clipboard is watched.
    pub fn watch_badge(&self, palette: ThemePalette, dark_mode: bool) -> (r: Pill)
        ensures
            flag_or(self@.config.auto_watch, false) ==> r@ == (PillView {
                text: "自动监听开启"@,
                fill: faded_by(green(), dark_mode, 25, 12),
                color: Paint::Plain(green()),
            }),
            !flag_or(self@.config.auto_watch, false) ==> r@ == (PillView {
                text: "自动监听关闭"@,
                fill: Paint::Plain(
                    with_alpha(
                        opaque_of(111, 118, 132),
                        if dark_mode {
                            46
                        } else {
                            24
                        },
                    ),
                ),
                color: Paint::Plain(palette.muted),
            }),
    {
        if watch_enabled(&self.config) {
            Pill {
                text: "自动监听开启".to_owned(),
                fill: fade(apple_green(), dark_mode, 25, 12),
                color: Paint::Plain(apple_green()),
            }
        } else {
            let grey = opaque(111, 118, 132);
            Pill {
                text: "自动监听关闭".to_owned(),
                fill: Paint::Plain(
                    by_ground(dark_mode, see_through(grey, 46), see_through(grey, 24)),
                ),
                color: Paint::Plain(palette.muted),
            }
        }
    }

    /// The badge that says whether the settings are saved.
    pub fn config_badge(&self, palette: ThemePalette, dark_mode: bool) -> (r: Pill)
        ensures
            r@ == (PillView {
                text: if self@.config_dirty {
                    "配置待保存"@
                } else {
                    "配置已保存"@
                },
                fill: faded_by(orange(), dark_mode, 25, 12),
                color: Paint::Plain(
                    if self@.config_dirty {
                        orange()
                    } else {
                        palette.text
                    },
                ),
            }),
    {
        let fill = fade(apple_orange(), dark_mode, 25, 12);
        if self.config_dirty {
            Pill { text: "配置待保存".to_owned(), fill, color: Paint::Plain(apple_orange()) }
        } else {
            Pill { text: "配置已保存".to_owned(), fill, color: Paint::Plain(palette.text) }
        }
    }

    /// The badge beside the switch of the watch.
    pub fn watch_pill(&self, palette: ThemePalette) -> (r: Pill)
        ensures
            self@.watch_active ==> r@ == (PillView {
                text: "运行中"@,
                fill: Paint::Faded(green(), 12),
                color: Paint::Plain(green()),
            }),
            !self@.watch_active ==> r@ == (PillView {
                text: "未开启"@,
                fill: Paint::Plain(with_alpha(opaque_of(111, 118, 132), 24)),
                color: Paint::Plain(palette.muted),
            }),
    {
        if self.watch_active {
            Pill {
                text: "运行中".to_owned(),
                fill: Paint::Faded(apple_green(), 12),
                color: Paint::Plain(apple_green()),
            }
        } else {
            Pill {
                text: "未开启".to_owned(),
                fill: Paint::Plain(see_through(opaque(111, 118, 132), 24)),
                color: Paint::Plain(palette.muted),
            }
        }
    }

    /// The state of the watch on its tile.
    pub fn watch_word(&self) -> (r: &'static str)
        ensures
            r@ == (if flag_or(self@.config.auto_watch, false) {
                "ON"@
            } else {
                "OFF"@
            }),
    {
        if watch_enabled(&self.config) {
            "ON"
        } else {
            "OFF"
        }
    }

    /// What the button that saves the settings says: with a mark while they are unsaved.
    pub fn save_text(&self) -> (r: &'static str)
        ensures
            r@ == (if self@.config_dirty {
                "保存更改 ●"@
            } else {
                "保存配置"@
            }),
    {
        if self.config_dirty {
            "保存更改 ●"
        } else {
            "保存配置"
        }
    }

    /// What the button for an upload says, and whether it can be pressed.
    pub fn upload_button(&self) -> (r: (&'static str, bool))
        ensures
            r.0@ == (if some_active(self@.tasks) {
                "上传中..."@
            } else {
                "从剪贴板上传"@
            }),
            r.1 == !some_active(self@.tasks),
    {
        if has_active(&self.tasks) {
            ("上传中...", false)
        } else {
            ("从剪贴板上传", true)
        }
    }

    /// The banner of the upload page.
    pub fn banner(&self, palette: ThemePalette) -> (r: Banner)
        ensures
            r@ == banner_of(self@, palette),
    {
        match &self.status {
            Some((is_err, msg)) => if *is_err {
                Banner {
                    fill: Paint::Faded(apple_red(), 10),
                    stroke: Paint::Faded(apple_red(), 35),
                    icon: "失败",
                    title: msg.clone(),
                    detail: "请检查网络、响应解析规则或上传地址。",
                }
            } else {
                Banner {
                    fill: Paint::Faded(apple_green(), 10),
                    stroke: Paint::Faded(apple_green(), 35),
                    icon: "完成",
                    title: msg.clone(),
                    detail: "状态提示会在几秒后自动清除。",
                }
            },
            None => if has_active(&self.tasks) {
                Banner {
                    fill: Paint::Faded(palette.accent, 12),
                    stroke: Paint::Faded(palette.accent, 35),
                    icon: "处理中",
                    title: "正在上传新的剪贴板图片".to_owned(),
                    detail: "文件已读取，等待远端完成响应。",
                }
            } else {
                Banner {
                    fill: Paint::Plain(palette.row),
                    stroke: Paint::Plain(palette.border),
                    icon: "待命",
                    title: "应用已就绪".to_owned(),
                    detail: "截图后可以直接上传，也可以交给自动监听。",
                }
            },
        }
    }

    /// The summary of the preferences.
    pub fn preference_rows(&self, palette: ThemePalette) -> (r: Vec<SummaryRow>)
        ensures
            rows_model(r@) == seq![
                (
                    "自动复制"@,
                    on_off(flag_or(self@.config.copy_to_clipboard, false)),
                    if flag_or(self@.config.copy_to_clipboard, false) {
                        green()
                    } else {
                        palette.muted
                    },
                ),
                (
                    "系统通知"@,
                    on_off(flag_or(self@.config.notify_on_success, false)),
                    if flag_or(self@.config.notify_on_success, false) {
                        palette.accent
                    } else {
                        palette.muted
                    },
                ),
                (
                    "关闭窗口"@,
                    if flag_or(self@.config.close_to_tray, true) {
                        "收起到托盘"@
                    } else {
                        "直接退出"@
                    },
                    orange(),
                ),
                (
                    "已完成任务"@,
                    decimal(count_tasks(self@.tasks, |st: StatusView| st is Success)),
                    green(),
                ),
            ],
    {
        let copies = copy_enabled(&self.config);
        let notifies = notify_enabled(&self.config);
        let counts: Counts = self.counts();
        let mut r: Vec<SummaryRow> = Vec::new();
        r.push(
            SummaryRow {
                label: "自动复制",
                value: on_off_text(copies),
                tint: if copies {
                    apple_green()
                } else {
                    palette.muted
                },
            },
        );
        r.push(
            SummaryRow {
                label: "系统通知",
                value: on_off_text(notifies),
                tint: if notifies {
                    palette.accent
                } else {
                    palette.muted
                },
            },
        );
        r.push(
            SummaryRow {
                label: "关闭窗口",
                value: if tray_enabled(&self.config) {
                    "收起到托盘".to_owned()
                } else {
                    "直接退出".to_owned()
                },
                tint: apple_orange(),
            },
        );
        r.push(
            SummaryRow {
                label: "已完成任务",
                value: decimal_text(counts.succeeded as u64),
                tint: apple_green(),
            },
        );
        assert(rows_model(r@).len() == 4);
        r
    }

    /// The summary of the overview; a wide window has a line more.
    pub fn overview_rows(&self, wide: bool, system: SystemTheme, palette: ThemePalette) -> (r: Vec<
        SummaryRow,
    >)
        ensures
            rows_model(r@) == seq![
                ("当前主题"@, theme_mode_in(self@.config).name(), palette.accent),
                ("主题色"@, accent_in(self@.config).name(), palette.accent),
                (
                    "失败任务"@,
                    decimal(count_tasks(self@.tasks, |st: StatusView| st is Failed)),
                    red(),
                ),
            ] + (if wide {
                seq![("系统主题"@, system_theme_word(system), orange())]
            } else {
                seq![]
            }),
    {
        let mode: ThemeMode = config_theme_mode(&self.config);
        let accent: AccentColor = config_accent_color(&self.config);
        let counts: Counts = self.counts();
        let mut r: Vec<SummaryRow> = Vec::new();
        r.push(
            SummaryRow { label: "当前主题", value: mode.label().to_owned(), tint: palette.accent },
        );
        r.push(
            SummaryRow { label: "主题色", value: accent.label().to_owned(), tint: palette.accent },
        );
        r.push(
            SummaryRow {
                label: "失败任务",
                value: decimal_text(counts.failed as u64),
                tint: apple_red(),
            },
        );
        if wide {
            let word = match system {
                SystemTheme::Known(Theme::Dark) => "深色".to_owned(),
                SystemTheme::Known(Theme::Light) => "浅色".to_owned(),
                SystemTheme::Unknown => "未知".to_owned(),
            };
            r.push(SummaryRow { label: "系统主题", value: word, tint: apple_orange() });
        }
        r
    }

    /// Which button stands over the list on the activity page.
    pub fn clear_button(&self) -> (r: ClearButton)
        ensures
            r == (match self@.bottom_tab {
                BottomTab::Tasks => if self@.tasks.len() == 0 {
                    ClearButton::Absent
                } else {
                    ClearButton::Finished
                },
                BottomTab::History => if self@.history.len() == 0 {
                    ClearButton::Absent
                } else {
                    ClearButton::History
                },
            }),
    {
        match self.bottom_tab {
            BottomTab::Tasks => if self.tasks.len() == 0 {
                ClearButton::Absent
            } else {
                ClearButton::Finished
            },
            BottomTab::History => if self.history.len() == 0 {
                ClearButton::Absent
            } else {
                ClearButton::History
            },
        }
    }

    /// What the tab of the tasks says.
    pub fn task_label(&self) -> (r: String)
        ensures
            r@ == task_label_of(
                count_tasks(self@.tasks, |st: StatusView| is_active(st)),
                count_tasks(self@.tasks, |st: StatusView| st is Failed),
                self@.tasks.len(),
            ),
    {
        let counts: Counts = self.counts();
        if counts.active > 0 {
            joined("任务 ", decimal_text(counts.active as u64).as_str())
        } else if counts.failed > 0 {
            let mut r = joined("任务 ", decimal_text(counts.failed as u64).as_str());
            r.append(" 失败");
            r
        } else {
            joined("任务 ", decimal_text(self.tasks.len() as u64).as_str())
        }
    }

    /// What the tab of the history says.
    pub fn history_label(&self) -> (r: String)
        ensures
            r@ == "历史 "@ + decimal(self@.history.len()),
    {
        joined("历史 ", decimal_text(self.history.len() as u64).as_str())
    }

    /// The cards of the tasks, the latest first.
    pub fn task_cards(&self, palette: ThemePalette, dark_mode: bool) -> (r: Vec<TaskCard>)
        ensures
            card_models(r@) == cards_of(self@, palette, dark_mode),
    {
        let accent = config_accent_color(&self.config);
        let n: usize = self.tasks.len();
        let mut r: Vec<TaskCard> = Vec::new();
        let mut i: usize = 0;
        while i < n
            invariant
                i <= n,
                n == self.tasks.len(),
                r.len() == i,
                accent == accent_in(self@.config),
                forall|k: int|
                    0 <= k < i ==> (#[trigger] r@[k])@ == card_of(
                        self@.tasks[n - 1 - k],
                        accent,
                        palette,
                        dark_mode,
                    ),
            decreases n - i,
        {
            r.push(task_card(&self.tasks[n - 1 - i], accent, palette, dark_mode));
            i += 1;
        }
        assert(card_models(r@) =~= cards_of(self@, palette, dark_mode));
        r
    }

    /// The cards of the history.
    pub fn history_cards(&self, palette: ThemePalette, dark_mode: bool) -> (r: Vec<HistoryCard>)
        ensures
            history_models(r@) == Seq::new(
                self@.history.len(),
                |i: int| history_card_of(self@.history[i], palette, dark_mode),
            ),
    {
        let mut r: Vec<HistoryCard> = Vec::new();
        let mut i: usize = 0;
        while i < self.history.len()
            invariant
                i <= self.history.len(),
                r.len() == i,
                forall|k: int|
                    0 <= k < i ==> (#[trigger] r@[k])@ == history_card_of(
                        self@.history[k],
                        palette,
                        dark_mode,
                    ),
            decreases self.history.len() - i,
        {
            r.push(record_card(&self.history[i], palette, dark_mode));
            i += 1;
        }
        assert(history_models(r@) =~= Seq::new(
            self@.history.len(),
            |i: int| history_card_of(self@.history[i], palette, dark_mode),
        ));
        r
    }
}

/// Takes a click on one of the words to choose from, and tells whether the choice
/// changes.
pub fn choose_word(selected: &mut String, option: &str, clicked: bool) -> (changed: bool)
    ensures
        changed == (clicked && option@ != old(selected)@),
        final(selected)@ == (if changed {
            option@
        } else {
            old(selected)@
        }),
{
    if clicked && !same_text(selected.as_str(), option) {
        *selected = option.to_owned();
        true
    } else {
        false
    }
}

/// Takes a click on a switch, and tells whether it changes.
pub fn flip_switch(on: &mut bool, clicked: bool) -> (changed: bool)
    ensures
        changed == clicked,
        *final(on) == (if clicked {
            !*old(on)
        } else {
            *old(on)
        }),
{
    if clicked {
        *on = !*on;
    }
    clicked
}

/// A task under way offers no retry, and only one that waits for its retry can be
/// removed; a task that is over can always be removed; a link is offered exactly where
/// the upload succeeded.
pub proof fn lemma_card_offers(
    t: TaskView,
    accent: AccentColor,
    palette: ThemePalette,
    dark_mode: bool,
)
    ensures
        ({
            let c = card_of(t, accent, palette, dark_mode);
            &&& is_active(t.status) ==> !c.retryable && c.link is None
            &&& is_active(t.status) ==> (c.removable <==> t.status is Retrying)
            &&& !is_active(t.status) ==> c.removable
            &&& c.link is Some <==> t.status is Success
            &&& c.retryable <==> t.status is Failed
        }),
{
}

} // verus!
