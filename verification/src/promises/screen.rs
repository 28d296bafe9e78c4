//! What the window shows.
use vstd::prelude::*;

use crate::config::{accent_in, AccentColor};
use crate::digits::decimal;
use crate::state::{RecordView, StateView};
use crate::task::{some_active, StatusView, TaskView};
use crate::theme::{
    accent_of, choice_colors, faded_by, green, opaque_of, orange, palette_of, red, style_of,
    transparent, with_alpha, ButtonColors, Paint, Rgba, Theme, ThemePalette,
};
use crate::view::{
    badge_of, banner_of, card_lines, card_of, card_paints, cards_of, history_card_of, on_off,
    system_theme_word, task_label_of, upload_badge_of, BannerView,
    LineKind, PillView, SystemTheme,
};
use crate::window::count_tasks;

verus! {

/// The colours that have names.
pub proof fn lemma_named_colors(c: Rgba, a: u8, r: u8, g: u8, b: u8)
    ensures
        opaque_of(r, g, b) == (Rgba { r, g, b, a: 255 }),
        with_alpha(c, a) == (Rgba { r: c.r, g: c.g, b: c.b, a }),
        transparent() == (Rgba { r: 0, g: 0, b: 0, a: 0 }),
        green() == (Rgba { r: 52, g: 199, b: 89, a: 255 }),
        orange() == (Rgba { r: 255, g: 159, b: 10, a: 255 }),
        red() == (Rgba { r: 255, g: 69, b: 58, a: 255 }),
        accent_of(AccentColor::Blue) == (Rgba { r: 10, g: 132, b: 255, a: 255 }),
        accent_of(AccentColor::Green) == (Rgba { r: 48, g: 209, b: 88, a: 255 }),
        accent_of(AccentColor::Orange) == (Rgba { r: 255, g: 159, b: 10, a: 255 }),
        accent_of(AccentColor::Pink) == (Rgba { r: 255, g: 55, b: 95, a: 255 }),
        accent_of(AccentColor::Purple) == (Rgba { r: 191, g: 90, b: 242, a: 255 }),
{
}

/// A colour fades by one amount on dark and by another on light.
pub proof fn lemma_fading(c: Rgba, dark: u8, light: u8)
    ensures
        faded_by(c, true, dark, light) == Paint::Faded(c, dark),
        faded_by(c, false, dark, light) == Paint::Faded(c, light),
{
}

/// The colours of the light theme.
pub proof fn lemma_light_palette(accent: AccentColor)
    ensures
        ({
            let p = palette_of(Theme::Light, accent);
            let c = accent_of(accent);
            &&& p.accent == c
            &&& p.bg == Rgba { r: 242, g: 244, b: 248, a: 255 }
            &&& p.card == Rgba { r: 255, g: 255, b: 255, a: 244 }
            &&& p.soft == Rgba { r: 247, g: 249, b: 252, a: 255 }
            &&& p.row == Rgba { r: 251, g: 252, b: 255, a: 255 }
            &&& p.border == Rgba { r: 15, g: 23, b: 42, a: 22 }
            &&& p.text == Rgba { r: 29, g: 31, b: 36, a: 255 }
            &&& p.muted == Rgba { r: 111, g: 118, b: 132, a: 255 }
            &&& p.shadow == Rgba { r: 0, g: 0, b: 0, a: 14 }
            &&& p.glow_a == Rgba { a: 22, ..c }
            &&& p.glow_b == Rgba { r: 255, g: 255, b: 255, a: 160 }
        }),
{
}

/// The colours of the dark theme.
pub proof fn lemma_dark_palette(accent: AccentColor)
    ensures
        ({
            let p = palette_of(Theme::Dark, accent);
            let c = accent_of(accent);
            &&& p.accent == c
            &&& p.bg == Rgba { r: 17, g: 19, b: 24, a: 255 }
            &&& p.card == Rgba { r: 28, g: 31, b: 38, a: 242 }
            &&& p.soft == Rgba { r: 33, g: 37, b: 46, a: 255 }
            &&& p.row == Rgba { r: 37, g: 42, b: 52, a: 255 }
            &&& p.border == Rgba { r: 255, g: 255, b: 255, a: 22 }
            &&& p.text == Rgba { r: 240, g: 243, b: 248, a: 255 }
            &&& p.muted == Rgba { r: 154, g: 160, b: 173, a: 255 }
            &&& p.shadow == Rgba { r: 0, g: 0, b: 0, a: 46 }
            &&& p.glow_a == Rgba { a: 34, ..c }
            &&& p.glow_b == Rgba { r: 255, g: 255, b: 255, a: 18 }
        }),
{
}

/// The style is made of the palette alone: what is at rest has the colours of cards and
/// rows, what is pointed at has a border of the accent, and what is pressed is the accent
/// under white.
pub proof fn lemma_style(theme: Theme, accent: AccentColor)
    ensures
        ({
            let s = style_of(theme, accent);
            let p = palette_of(theme, accent);
            let white = Rgba { r: 255, g: 255, b: 255, a: 255 };
            &&& s.palette == p
            &&& s.popup_shadow == Paint::Faded(p.shadow, 80)
            &&& s.selection_stroke == white
            &&& s.noninteractive.bg_fill == p.card
            &&& s.noninteractive.weak_bg_fill == p.soft
            &&& s.noninteractive.bg_stroke == p.border
            &&& s.noninteractive.fg_stroke == p.text
            &&& s.inactive.bg_fill == p.row
            &&& s.inactive.weak_bg_fill == p.row
            &&& s.inactive.bg_stroke == p.border
            &&& s.inactive.fg_stroke == p.text
            &&& s.hovered.bg_fill == p.row
            &&& s.hovered.weak_bg_fill == p.row
            &&& s.hovered.bg_stroke == Rgba {
                a: if theme == Theme::Dark {
                    148
                } else {
                    96
                },
                ..p.accent
            }
            &&& s.hovered.fg_stroke == p.text
            &&& s.active.bg_fill == p.accent
            &&& s.active.weak_bg_fill == p.accent
            &&& s.active.bg_stroke == p.accent
            &&& s.active.fg_stroke == white
            &&& s.open == s.hovered
        }),
{
}

/// What is chosen has the accent under white, and what is not has the colours given.
pub proof fn lemma_choices(p: ThemePalette, fill: Rgba, stroke: Rgba)
    ensures
        choice_colors(p, true, fill, stroke) == (ButtonColors {
            text: Rgba { r: 255, g: 255, b: 255, a: 255 },
            fill: Paint::Plain(p.accent),
            stroke: p.accent,
        }),
        choice_colors(p, false, fill, stroke) == (ButtonColors {
            text: p.text,
            fill: Paint::Plain(fill),
            stroke,
        }),
{
}

/// The badge on the button tells how many tasks are under way, or that all is ready.
pub proof fn lemma_upload_badge(s: StateView, wide: bool, p: ThemePalette, dark: bool)
    ensures
        ({
            let b = upload_badge_of(s, wide, p, dark);
            let under_way = |st: StatusView| st is Uploading || st is Processing || st is Retrying;
            &&& some_active(s.tasks) && wide ==> b.text == decimal(count_tasks(s.tasks, under_way))
                + " 个任务处理中"@
            &&& some_active(s.tasks) && !wide ==> b.text == "正在处理任务"@
            &&& !some_active(s.tasks) ==> b.text == "准备就绪"@
            &&& some_active(s.tasks) ==> b.color == Paint::Plain(p.accent) && b.fill == (if dark {
                Paint::Faded(accent_of(accent_in(s.config)), 28)
            } else {
                Paint::Faded(accent_of(accent_in(s.config)), 12)
            })
            &&& !some_active(s.tasks) ==> b.color == Paint::Plain(green()) && b.fill == (if dark {
                Paint::Faded(green(), 25)
            } else {
                Paint::Faded(green(), 12)
            })
        }),
{
    let under_way = |st: StatusView| st is Uploading || st is Processing || st is Retrying;
    let as_told = |st: StatusView| crate::task::is_active(st);
    assert forall|st: StatusView| #[trigger] under_way(st) == as_told(st) by {}
    assert(under_way =~= as_told);
}

/// The words for switches and for the theme of the system.
pub proof fn lemma_words()
    ensures
        on_off(true) == "开启"@,
        on_off(false) == "关闭"@,
        system_theme_word(SystemTheme::Known(Theme::Dark)) == "深色"@,
        system_theme_word(SystemTheme::Known(Theme::Light)) == "浅色"@,
        system_theme_word(SystemTheme::Unknown) == "未知"@,
{
}

/// The banner tells the message, red where it tells of an error and green where it does
/// not; without one it tells whether a task is under way.
pub proof fn lemma_banner(s: StateView, p: ThemePalette)
    ensures
        ({
            let b = banner_of(s, p);
            &&& s.status matches Some(m) ==> b.title == m.1
            &&& s.status matches Some(m) ==> m.0 ==> b == BannerView {
                fill: Paint::Faded(red(), 10),
                stroke: Paint::Faded(red(), 35),
                icon: "失败"@,
                title: m.1,
                detail: "请检查网络、响应解析规则或上传地址。"@,
            }
            &&& s.status matches Some(m) ==> !m.0 ==> b == BannerView {
                fill: Paint::Faded(green(), 10),
                stroke: Paint::Faded(green(), 35),
                icon: "完成"@,
                title: m.1,
                detail: "状态提示会在几秒后自动清除。"@,
            }
            &&& s.status is None && some_active(s.tasks) ==> b == BannerView {
                fill: Paint::Faded(p.accent, 12),
                stroke: Paint::Faded(p.accent, 35),
                icon: "处理中"@,
                title: "正在上传新的剪贴板图片"@,
                detail: "文件已读取，等待远端完成响应。"@,
            }
            &&& s.status is None && !some_active(s.tasks) ==> b == BannerView {
                fill: Paint::Plain(p.row),
                stroke: Paint::Plain(p.border),
                icon: "待命"@,
                title: "应用已就绪"@,
                detail: "截图后可以直接上传，也可以交给自动监听。"@,
            }
        }),
{
}

/// The label of the list of tasks tells how many are under way, or else how many have
/// failed, or else how many there are.
pub proof fn lemma_label_of_the_list(active: nat, failed: nat, all: nat)
    ensures
        active > 0 ==> task_label_of(active, failed, all) == "任务 "@ + decimal(active),
        active == 0 && failed > 0 ==> task_label_of(active, failed, all) == "任务 "@ + decimal(
            failed,
        ) + " 失败"@,
        active == 0 && failed == 0 ==> task_label_of(active, failed, all) == "任务 "@ + decimal(
            all,
        ),
{
}

/// The badge of a task tells its stage, in the colour of that stage.
pub proof fn lemma_badges(t: TaskView, accent: AccentColor, p: ThemePalette, dark: bool)
    ensures
        ({
            let b = badge_of(t.status, accent, p, dark);
            &&& t.status is Uploading ==> b.text == "上传中"@ && b.color == Paint::Plain(orange())
            &&& t.status is Processing ==> b.text == "处理中"@ && b.color == Paint::Plain(p.accent)
            &&& t.status is Success ==> b.text == "已完成"@ && b.color == Paint::Plain(green())
            &&& t.status is Retrying ==> b.text == "自动重试"@ && b.color == Paint::Plain(orange())
            &&& t.status is Failed ==> b.text == "失败"@ && b.color == Paint::Plain(red())
            &&& t.status is Processing ==> b.fill == (if dark {
                Paint::Faded(accent_of(accent), 28)
            } else {
                Paint::Faded(accent_of(accent), 12)
            })
            &&& b.color matches Paint::Plain(c) ==> !(t.status is Processing) ==> b.fill == (
            if dark {
                Paint::Faded(c, 25)
            } else {
                Paint::Faded(c, 12)
            })
        }),
{
}

/// The card of a task has the colour of its stage on dark and on light.
pub proof fn lemma_card_colors(t: TaskView, p: ThemePalette)
    ensures
        ({
            let dark = card_paints(t.status, p, true);
            let light = card_paints(t.status, p, false);
            &&& dark.1 == light.1
            &&& t.status is Uploading || t.status is Retrying ==> dark.0 == Rgba {
                r: 53,
                g: 39,
                b: 25,
                a: 255,
            } && light.0 == Rgba { r: 255, g: 250, b: 242, a: 255 } && dark.1 == Paint::Faded(
                orange(),
                30,
            )
            &&& t.status is Processing ==> dark.0 == Rgba { r: 25, g: 39, b: 55, a: 255 } && light.0
                == Rgba { r: 243, g: 249, b: 255, a: 255 } && dark.1 == Paint::Faded(p.accent, 30)
            &&& t.status is Success ==> dark.0 == Rgba { r: 23, g: 43, b: 31, a: 255 } && light.0
                == Rgba { r: 244, g: 252, b: 246, a: 255 } && dark.1 == Paint::Faded(green(), 30)
            &&& t.status is Failed ==> dark.0 == Rgba { r: 57, g: 28, b: 31, a: 255 } && light.0
                == Rgba { r: 255, g: 245, b: 245, a: 255 } && dark.1 == Paint::Faded(red(), 30)
        }),
{
}

/// The card of a task tells the task: its number and its time, its link after a success,
/// a retry after a failure, and that it can be removed where no upload is running.
pub proof fn lemma_card(t: TaskView, accent: AccentColor, p: ThemePalette, dark: bool)
    ensures
        ({
            let c = card_of(t, accent, p, dark);
            &&& c.id == t.id
            &&& c.created_at == t.created_at
            &&& c.badge == badge_of(t.status, accent, p, dark)
            &&& (c.fill, c.stroke) == card_paints(t.status, p, dark)
            &&& c.removable <==> !(t.status is Uploading) && !(t.status is Processing)
            &&& t.status matches StatusView::Success(url, src) ==> c.link == Some(url)
            &&& !(t.status is Success) ==> c.link is None
            &&& c.retryable <==> t.status is Failed
            &&& c.lines == card_lines(t, p)
        }),
{
}

/// What stands on the card of a task that is under way.
pub proof fn lemma_lines_under_way(t: TaskView, p: ThemePalette)
    ensures
        t.status is Uploading ==> card_lines(t, p) == seq![
            (LineKind::Progress, "正在上传剪贴板图片到服务器。"@, p.muted),
        ],
        t.status is Processing ==> card_lines(t, p) == seq![
            (LineKind::Progress, "文件已发送完成，正在等待服务端处理结果。"@, p.muted),
        ],
        t.status matches StatusView::Retrying {
            message,
            attempt,
            max_retries,
            wait_seconds,
        } ==> card_lines(t, p) == seq![
            (LineKind::Failure, "最近一次失败: "@ + message, orange()),
            (
                LineKind::Wait,
                "将在 "@ + decimal(wait_seconds as nat) + " 秒后自动重试（第 "@ + decimal(
                    attempt as nat,
                ) + "/"@ + decimal(max_retries as nat) + " 次）。"@,
                p.muted,
            ),
        ],
{
}

/// What stands on the card of a task that is over: after a success the link, and the `src`
/// where there is one; after a failure its message, an advice where it does not pass, and
/// another where the image is gone.
pub proof fn lemma_lines_at_the_end(t: TaskView, p: ThemePalette)
    ensures
        ({
            let lines = card_lines(t, p);
            let stays = (
                LineKind::Advice,
                "这类错误不会自动重试，请检查上传地址、请求头或响应解析配置。"@,
                p.muted,
            );
            let gone = (LineKind::Advice, "图片缓存已释放，重试时会重新读取剪贴板。"@, p.muted);
            &&& t.status matches StatusView::Success(url, src) ==> {
                &&& src.len() == 0 ==> lines == seq![(LineKind::Link, url, p.accent)]
                &&& src.len() > 0 ==> lines == seq![
                    (LineKind::Link, url, p.accent),
                    (LineKind::Source, "src: "@ + src, p.muted),
                ]
            }
            &&& t.status matches StatusView::Failed { message, retryable } ==> {
                let told = (LineKind::Failure, message, red());
                &&& retryable && t.image_data.len() > 0 ==> lines == seq![told]
                &&& retryable && t.image_data.len() == 0 ==> lines == seq![told, gone]
                &&& !retryable && t.image_data.len() > 0 ==> lines == seq![told, stays]
                &&& !retryable && t.image_data.len() == 0 ==> lines == seq![told, stays, gone]
            }
        }),
{
}

/// The newest task stands first: the cards are those of the tasks from the last to the
/// first.
pub proof fn lemma_newest_first(s: StateView, p: ThemePalette, dark: bool, i: int)
    ensures
        cards_of(s, p, dark).len() == s.tasks.len(),
        0 <= i < s.tasks.len() ==> cards_of(s, p, dark)[s.tasks.len() - 1 - i] == card_of(
            s.tasks[i],
            accent_in(s.config),
            p,
            dark,
        ),
{
}

/// The card of a record tells its number, its time, its link, and the `src` where there
/// is one.
pub proof fn lemma_card_of_a_record(r: RecordView, p: ThemePalette, dark: bool)
    ensures
        ({
            let c = history_card_of(r, p, dark);
            &&& c.id == r.id
            &&& c.uploaded_at == r.uploaded_at
            &&& c.url == r.url
            &&& c.badge == PillView {
                text: "已上传"@,
                fill: if dark {
                    Paint::Faded(green(), 25)
                } else {
                    Paint::Faded(green(), 12)
                },
                color: Paint::Plain(green()),
            }
            &&& r.src.len() == 0 ==> c.lines == seq![(LineKind::Link, r.url, p.accent)]
            &&& r.src.len() > 0 ==> c.lines == seq![
                (LineKind::Link, r.url, p.accent),
                (LineKind::Source, "src: "@ + r.src, p.muted),
            ]
        }),
{
}

} // verus!
