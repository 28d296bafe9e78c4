//! The tray: its icon, its menu and what its entries mean.
use vstd::prelude::*;
use vstd::utf8::{decode_utf8, encode_utf8, encode_utf8_decode_utf8, is_char_boundary};

use crate::config::{flag_or, watch_enabled};
use crate::digits::{decimal, decimal_text, lemma_usize_round_trip, parse_usize, parsed_usize};
use crate::events::{AppEvent, EventView};
use crate::state::{AppState, RecordView, StateView};
use crate::task::{has_active, some_active};
use crate::text::{begins_with, chars_of, joined, same_text, strip_prefix, texts};

verus! {

/// The width and the height of the icon.
pub const TRAY_ICON_SIZE: u32 = 22;

/// The rows of the icon, `#` where it is drawn: an arrow up over an open tray.
pub open spec fn mask_row(y: int) -> Seq<char> {
    if y == 2 || 6 <= y <= 8 {
        "..........##.........."@
    } else if y == 3 {
        ".........####........."@
    } else if y == 4 {
        "........##..##........"@
    } else if y == 5 {
        ".......##....##......."@
    } else if y == 9 {
        ".....##...##...##....."@
    } else if y == 10 {
        "....###...##...###...."@
    } else if 11 <= y <= 16 {
        "....##..........##...."@
    } else if y == 17 {
        "....##############...."@
    } else if y == 18 {
        ".....############....."@
    } else {
        "......................"@
    }
}

/// A row of the icon.
fn mask_text(y: u32) -> (r: &'static str)
    ensures
        r@ == mask_row(y as int),
        r@.len() == TRAY_ICON_SIZE,
{
    proof {
        reveal_strlit("..........##..........");
        reveal_strlit(".........####.........");
        reveal_strlit("........##..##........");
        reveal_strlit(".......##....##.......");
        reveal_strlit(".....##...##...##.....");
        reveal_strlit("....###...##...###....");
        reveal_strlit("....##..........##....");
        reveal_strlit("....##############....");
        reveal_strlit(".....############.....");
        reveal_strlit("......................");
    }
    if y == 2 || (6 <= y && y <= 8) {
        "..........##.........."
    } else if y == 3 {
        ".........####........."
    } else if y == 4 {
        "........##..##........"
    } else if y == 5 {
        ".......##....##......."
    } else if y == 9 {
        ".....##...##...##....."
    } else if y == 10 {
        "....###...##...###...."
    } else if 11 <= y && y <= 16 {
        "....##..........##...."
    } else if y == 17 {
        "....##############...."
    } else if y == 18 {
        ".....############....."
    } else {
        "......................"
    }
}

/// One byte of the icon: four bytes a pixel, row by row, opaque white where the icon
/// is drawn and nothing elsewhere.
pub open spec fn icon_byte(k: int) -> u8 {
    let pixel = k / 4;
    if mask_row(pixel / TRAY_ICON_SIZE as int)[pixel % TRAY_ICON_SIZE as int] == '#' {
        255
    } else {
        0
    }
}

/// Draws the icon: its bytes, its width and its height.
pub fn build_tray_icon_rgba() -> (r: (Vec<u8>, u32, u32))
    ensures
        r.0@ == Seq::new(1936, |k: int| icon_byte(k)),
        r.1 == TRAY_ICON_SIZE,
        r.2 == TRAY_ICON_SIZE,
{
    let mut out: Vec<u8> = Vec::new();
    let mut y: u32 = 0;
    while y < TRAY_ICON_SIZE
        invariant
            y <= TRAY_ICON_SIZE,
            out@.len() == y * 88,
            forall|k: int| 0 <= k < out@.len() ==> out@[k] == icon_byte(k),
        decreases TRAY_ICON_SIZE - y,
    {
        let row = chars_of(mask_text(y));
        let mut x: usize = 0;
        while x < row.len()
            invariant
                y < TRAY_ICON_SIZE,
                row@ == mask_row(y as int),
                row.len() == TRAY_ICON_SIZE,
                x <= row.len(),
                out@.len() == y * 88 + x * 4,
                forall|k: int| 0 <= k < out@.len() ==> out@[k] == icon_byte(k),
            decreases row.len() - x,
        {
            let b: u8 = if row[x] == '#' {
                255
            } else {
                0
            };
            let ghost start = out@.len() as int;
            assert forall|k: int| start <= k < start + 4 implies b == icon_byte(k) by {
                assert(k / 4 == y * 22 + x);
                assert((y * 22 + x) / 22 == y);
                assert((y * 22 + x) % 22 == x);
            }
            out.push(b);
            out.push(b);
            out.push(b);
            out.push(b);
            x += 1;
        }
        y += 1;
    }
    assert(out@ =~= Seq::new(1936, |k: int| icon_byte(k)));
    (out, TRAY_ICON_SIZE, TRAY_ICON_SIZE)
}

/// An entry of the tray's menu.
#[derive(Debug, Clone, Copy)]
pub enum TrayEntry {
    /// Uploads the clipboard.
    Upload(&'static str),
    /// Switches the watch, and shows whether it is on.
    Watch(&'static str, bool),
    /// The last links, with what stands there while there are none.
    Recent(&'static str, &'static str),
    /// Says what goes on; it cannot be chosen.
    Status(&'static str),
    /// Shows the window.
    Show(&'static str),
    /// Quits.
    Quit(&'static str),
    /// A line between entries.
    Separator,
}

/// The model of a [`TrayEntry`].
pub enum TrayEntryView {
    Upload(Seq<char>),
    Watch(Seq<char>, bool),
    Recent(Seq<char>, Seq<char>),
    Status(Seq<char>),
    Show(Seq<char>),
    Quit(Seq<char>),
    Separator,
}

impl View for TrayEntry {
    type V = TrayEntryView;

    open spec fn view(&self) -> TrayEntryView {
        match *self {
            TrayEntry::Upload(t) => TrayEntryView::Upload(t@),
            TrayEntry::Watch(t, on) => TrayEntryView::Watch(t@, on),
            TrayEntry::Recent(t, none) => TrayEntryView::Recent(t@, none@),
            TrayEntry::Status(t) => TrayEntryView::Status(t@),
            TrayEntry::Show(t) => TrayEntryView::Show(t@),
            TrayEntry::Quit(t) => TrayEntryView::Quit(t@),
            TrayEntry::Separator => TrayEntryView::Separator,
        }
    }
}

/// The models of a menu.
pub open spec fn menu_model(v: Seq<TrayEntry>) -> Seq<TrayEntryView> {
    Seq::new(v.len(), |i: int| v[i]@)
}

/// The menu at the start, from top to bottom.
pub fn build_tray_menu(watch_active: bool) -> (r: Vec<TrayEntry>)
    ensures
        menu_model(r@) == seq![
            TrayEntryView::Upload("从剪贴板上传"@),
            TrayEntryView::Separator,
            TrayEntryView::Watch("自动监听剪贴板"@, watch_active),
            TrayEntryView::Separator,
            TrayEntryView::Recent("最近上传"@, "暂无记录"@),
            TrayEntryView::Separator,
            TrayEntryView::Status("状态: 空闲"@),
            TrayEntryView::Separator,
            TrayEntryView::Show("打开设置窗口"@),
            TrayEntryView::Quit("退出"@),
        ],
{
    let mut r: Vec<TrayEntry> = Vec::new();
    r.push(TrayEntry::Upload("从剪贴板上传"));
    r.push(TrayEntry::Separator);
    r.push(TrayEntry::Watch("自动监听剪贴板", watch_active));
    r.push(TrayEntry::Separator);
    r.push(TrayEntry::Recent("最近上传", "暂无记录"));
    r.push(TrayEntry::Separator);
    r.push(TrayEntry::Status("状态: 空闲"));
    r.push(TrayEntry::Separator);
    r.push(TrayEntry::Show("打开设置窗口"));
    r.push(TrayEntry::Quit("退出"));
    assert(menu_model(r@) =~= seq![
        TrayEntryView::Upload("从剪贴板上传"@),
        TrayEntryView::Separator,
        TrayEntryView::Watch("自动监听剪贴板"@, watch_active),
        TrayEntryView::Separator,
        TrayEntryView::Recent("最近上传"@, "暂无记录"@),
        TrayEntryView::Separator,
        TrayEntryView::Status("状态: 空闲"@),
        TrayEntryView::Separator,
        TrayEntryView::Show("打开设置窗口"@),
        TrayEntryView::Quit("退出"@),
    ]);
    r
}

/// The names under which the entries of the menu report.
pub struct TrayIds {
    pub show: String,
    pub upload: String,
    pub watch: String,
    pub quit: String,
}

/// The name under which one of the last links reports.
pub open spec fn recent_id(i: nat) -> Seq<char> {
    "recent_url_"@ + decimal(i)
}

/// What choosing the entry of that name means: one of the four fixed ones, or one of
/// the last links that is there; any other name means nothing.
pub open spec fn menu_meaning(
    id: Seq<char>,
    show: Seq<char>,
    upload: Seq<char>,
    watch: Seq<char>,
    quit: Seq<char>,
    recent: Seq<Seq<char>>,
) -> Option<EventView> {
    if id == show {
        Some(EventView::TrayShowWindow)
    } else if id == upload {
        Some(EventView::TrayUpload)
    } else if id == watch {
        Some(EventView::TrayToggleWatch)
    } else if id == quit {
        Some(EventView::TrayQuit)
    } else if begins_with(id, "recent_url_"@) {
        match parsed_usize(id.skip("recent_url_"@.len() as int)) {
            Some(i) => if i < recent.len() {
                Some(EventView::TrayCopyUrl(recent[i as int]))
            } else {
                None
            },
            None => None,
        }
    } else {
        None
    }
}

/// The model of an event that may be absent.
pub open spec fn maybe_event(e: Option<AppEvent>) -> Option<EventView> {
    match e {
        Some(x) => Some(x@),
        None => None,
    }
}

/// Tells what choosing the entry of that name means.
pub fn menu_event(id: &str, ids: &TrayIds, recent: &Vec<String>) -> (r: Option<AppEvent>)
    ensures
        maybe_event(r) == menu_meaning(
            id@,
            ids.show@,
            ids.upload@,
            ids.watch@,
            ids.quit@,
            texts(recent@),
        ),
{
    if same_text(id, ids.show.as_str()) {
        return Some(AppEvent::TrayShowWindow);
    }
    if same_text(id, ids.upload.as_str()) {
        return Some(AppEvent::TrayUpload);
    }
    if same_text(id, ids.watch.as_str()) {
        return Some(AppEvent::TrayToggleWatch);
    }
    if same_text(id, ids.quit.as_str()) {
        return Some(AppEvent::TrayQuit);
    }
    match strip_prefix(id, "recent_url_") {
        Some(rest) => match parse_usize(rest.as_str()) {
            Some(i) => if i < recent.len() {
                Some(AppEvent::TrayCopyUrl(recent[i].clone()))
            } else {
                None
            },
            None => None,
        },
        None => None,
    }
}

/// Choosing one of the last links copies that link, as long as no fixed entry reports
/// under the same name.
pub proof fn lemma_recent_entry_copies_its_link(
    i: usize,
    show: Seq<char>,
    upload: Seq<char>,
    watch: Seq<char>,
    quit: Seq<char>,
    recent: Seq<Seq<char>>,
)
    requires
        i < recent.len(),
        recent_id(i as nat) != show,
        recent_id(i as nat) != upload,
        recent_id(i as nat) != watch,
        recent_id(i as nat) != quit,
    ensures
        menu_meaning(recent_id(i as nat), show, upload, watch, quit, recent) == Some(
            EventView::TrayCopyUrl(recent[i as int]),
        ),
{
    let id = recent_id(i as nat);
    let p = "recent_url_"@;
    assert(id.take(p.len() as int) =~= p);
    assert(id.skip(p.len() as int) =~= decimal(i as nat));
    lemma_usize_round_trip(i);
}

/// How many of the last links the menu shows.
pub const RECENT_LINKS: usize = 5;

/// The last links that the menu shows.
pub open spec fn recent_links(history: Seq<RecordView>) -> Seq<Seq<char>> {
    Seq::new(
        if history.len() < RECENT_LINKS {
            history.len()
        } else {
            RECENT_LINKS as nat
        },
        |i: int| history[i].url,
    )
}

/// Whether a link can be shown: one of more than 50 bytes is cut after 47, and has
/// to have the end of a character there.
pub open spec fn can_be_shown(url: Seq<char>) -> bool {
    encode_utf8(url).len() > 50 ==> is_char_boundary(encode_utf8(url), 47)
}

/// How a link is shown: as it is, or cut after 47 bytes where it has more than 50.
pub open spec fn shown_link(url: Seq<char>) -> Seq<char> {
    if encode_utf8(url).len() > 50 {
        decode_utf8(encode_utf8(url).subrange(0, 47)) + "..."@
    } else {
        url
    }
}

/// Whether a link can be shown.
pub fn link_can_be_shown(url: &str) -> (r: bool)
    ensures
        r == can_be_shown(url@),
{
    url.as_bytes().len() <= 50 || url.is_char_boundary(47)
}

/// Cuts a link to what is shown of it.
pub fn link_label(url: &str) -> (r: String)
    requires
        can_be_shown(url@),
    ensures
        r@ == shown_link(url@),
{
    if url.as_bytes().len() > 50 {
        let (front, _) = url.split_at(47);
        proof {
            encode_utf8_decode_utf8(front@);
        }
        joined(front, "...")
    } else {
        url.to_owned()
    }
}

/// One of the last links in the menu.
pub struct RecentItem {
    pub id: String,
    pub label: String,
}

/// The names and labels of the last links in the menu.
pub open spec fn item_models(v: Seq<RecentItem>) -> Seq<(Seq<char>, Seq<char>)> {
    Seq::new(v.len(), |i: int| (v[i].id@, v[i].label@))
}

/// What the menu shows for the last links.
pub open spec fn recent_items(links: Seq<Seq<char>>) -> Seq<(Seq<char>, Seq<char>)> {
    Seq::new(links.len(), |i: int| (recent_id(i as nat), shown_link(links[i])))
}

/// What the menu is brought to.
pub struct TraySync {
    /// Whether the watch is shown as on.
    pub watch: bool,
    /// What is said to go on.
    pub status_text: String,
    /// Whether an upload can be chosen.
    pub upload_enabled: bool,
    /// What the entry for an upload says.
    pub upload_text: String,
    /// The last links, and their entries in place of those that are there, where these
    /// have to be replaced.
    pub rebuild: Option<(Vec<String>, Vec<RecentItem>)>,
}

/// What the menu says of what goes on.
pub open spec fn tray_status(s: StateView) -> Seq<char> {
    if some_active(s.tasks) {
        "状态: 上传中..."@
    } else {
        match s.status {
            Some((_, msg)) => "状态: "@ + msg,
            None => "状态: 空闲"@,
        }
    }
}

/// Whether the entries that are there have to be replaced: they do not read as the
/// last links do.
pub open spec fn needs_rebuild(s: StateView, current: Seq<Seq<char>>) -> bool {
    current != recent_links(s.history)
}

impl AppState {
    /// The last links that the menu shows.
    pub fn recent_urls(&self) -> (r: Vec<String>)
        ensures
            texts(r@) == recent_links(self@.history),
    {
        let mut r: Vec<String> = Vec::new();
        let mut i: usize = 0;
        while i < self.history.len() && i < RECENT_LINKS
            invariant
                i <= self.history.len(),
                i <= RECENT_LINKS,
                r.len() == i,
                forall|k: int| 0 <= k < i ==> (#[trigger] r@[k])@ == self@.history[k].url,
            decreases RECENT_LINKS - i,
        {
            r.push(self.history[i].url.clone());
            i += 1;
        }
        assert(texts(r@) =~= recent_links(self@.history));
        r
    }

    /// Whether the menu can be brought up to date from what its entries read now.
    pub fn tray_can_sync(&self, current: &Vec<String>) -> (r: bool)
        ensures
            r == (needs_rebuild(self@, texts(current@)) ==> forall|i: int|
                0 <= i < recent_links(self@.history).len() ==> can_be_shown(
                    #[trigger] recent_links(self@.history)[i],
                )),
    {
        let urls = self.recent_urls();
        if same_texts(current, &urls) {
            return true;
        }
        let ghost links = recent_links(self@.history);
        let mut i: usize = 0;
        while i < urls.len()
            invariant
                i <= urls.len(),
                links == texts(urls@),
                links == recent_links(self@.history),
                needs_rebuild(self@, texts(current@)),
                forall|k: int| 0 <= k < i ==> can_be_shown(#[trigger] links[k]),
            decreases urls.len() - i,
        {
            assert(links[i as int] == urls@[i as int]@);
            if !link_can_be_shown(urls[i].as_str()) {
                assert(!can_be_shown(links[i as int]));
                return false;
            }
            i += 1;
        }
        true
    }

    /// Tells what the menu is brought to, from what the entries of the last links read.
    pub fn sync_tray_menu(&self, current: &Vec<String>) -> (r: TraySync)
        requires
            needs_rebuild(self@, texts(current@)) ==> forall|i: int|
                0 <= i < recent_links(self@.history).len() ==> can_be_shown(
                    #[trigger] recent_links(self@.history)[i],
                ),
        ensures
            r.watch == flag_or(self@.config.auto_watch, false),
            r.status_text@ == tray_status(self@),
            r.upload_enabled == !some_active(self@.tasks),
            r.upload_text@ == (if some_active(self@.tasks) {
                "上传中..."@
            } else {
                "从剪贴板上传"@
            }),
            r.rebuild is Some <==> needs_rebuild(self@, texts(current@)),
            r.rebuild matches Some((urls, items)) ==> texts(urls@) == recent_links(self@.history)
                && item_models(items@) == recent_items(recent_links(self@.history)),
    {
        let busy = has_active(&self.tasks);
        let status_text = if busy {
            "状态: 上传中...".to_owned()
        } else {
            match &self.status {
                Some((_, msg)) => joined("状态: ", msg.as_str()),
                None => "状态: 空闲".to_owned(),
            }
        };
        let upload_text = if busy {
            "上传中...".to_owned()
        } else {
            "从剪贴板上传".to_owned()
        };
        let watch = watch_enabled(&self.config);
        let urls = self.recent_urls();
        if same_texts(current, &urls) {
            return TraySync {
                watch,
                status_text,
                upload_enabled: !busy,
                upload_text,
                rebuild: None,
            };
        }
        let ghost links = recent_links(self@.history);
        let mut items: Vec<RecentItem> = Vec::new();
        let mut i: usize = 0;
        while i < urls.len()
            invariant
                i <= urls.len(),
                items.len() == i,
                links == texts(urls@),
                forall|k: int| 0 <= k < links.len() ==> can_be_shown(#[trigger] links[k]),
                forall|k: int|
                    0 <= k < i ==> (#[trigger] items@[k]).id@ == recent_id(k as nat)
                        && items@[k].label@ == shown_link(links[k]),
            decreases urls.len() - i,
        {
            assert(links[i as int] == urls@[i as int]@);
            let id = joined("recent_url_", decimal_text(i as u64).as_str());
            let label = link_label(urls[i].as_str());
            items.push(RecentItem { id, label });
            i += 1;
        }
        assert(item_models(items@) =~= recent_items(links));
        TraySync {
            watch,
            status_text,
            upload_enabled: !busy,
            upload_text,
            rebuild: Some((urls, items)),
        }
    }
}

/// Whether two lists hold the same texts.
fn same_texts(a: &Vec<String>, b: &Vec<String>) -> (r: bool)
    ensures
        r == (texts(a@) == texts(b@)),
{
    if a.len() != b.len() {
        assert(texts(a@).len() != texts(b@).len());
        return false;
    }
    let mut i: usize = 0;
    while i < a.len()
        invariant
            i <= a.len(),
            a.len() == b.len(),
            forall|k: int| 0 <= k < i ==> texts(a@)[k] == texts(b@)[k],
        decreases a.len() - i,
    {
        if !same_text(a[i].as_str(), b[i].as_str()) {
            assert(texts(a@)[i as int] != texts(b@)[i as int]);
            return false;
        }
        i += 1;
    }
    assert(texts(a@) =~= texts(b@));
    true
}

/// Links short enough to be shown as they are need no rebuilding once they are shown.
pub proof fn lemma_shown_links_settle(s: StateView)
    requires
        forall|i: int|
            0 <= i < recent_links(s.history).len() ==> encode_utf8(
                #[trigger] recent_links(s.history)[i],
            ).len() <= 50,
    ensures
        !needs_rebuild(
            s,
            Seq::new(
                recent_items(recent_links(s.history)).len(),
                |i: int| recent_items(recent_links(s.history))[i].1,
            ),
        ),
{
    let links = recent_links(s.history);
    assert(Seq::new(recent_items(links).len(), |i: int| recent_items(links)[i].1) =~= links);
}

} // verus!
