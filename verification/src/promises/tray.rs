//! The tray: its icon, its menu and its links.
use vstd::prelude::*;
use vstd::utf8::{decode_utf8, encode_utf8, is_char_boundary};

use crate::digits::{decimal, lemma_usize_round_trip, parsed_usize};
use crate::events::EventView;
use crate::promises::texts::lemma_beginning;
use crate::state::{RecordView, StateView};
use crate::task::some_active;
use crate::text::begins_with;
use crate::tray::{
    can_be_shown, icon_byte, mask_row, menu_meaning, needs_rebuild, recent_id, recent_items,
    recent_links, shown_link, tray_status, TRAY_ICON_SIZE,
};

verus! {

/// The points of the icon: an arrow that rises out of an open box, the same on the left as
/// on the right.
pub open spec fn is_drawn(x: int, y: int) -> bool {
    let m = if x < 11 {
        x
    } else {
        21 - x
    };
    // the arrow: a shaft in the middle under a head that widens downwards
    ||| m == 10 && (y == 2 || 6 <= y <= 10)
    ||| m >= 9 && y == 3
    ||| (m == 8 || m == 9) && y == 4
    ||| (m == 7 || m == 8) && y == 5
    // the box: its rim, its walls and its floor
    ||| (m == 5 || m == 6) && y == 9
    ||| 4 <= m <= 6 && y == 10
    ||| (m == 4 || m == 5) && 11 <= y <= 16
    ||| m >= 4 && y == 17
    ||| m >= 5 && y == 18
}

/// A row of the icon, told by its points.
proof fn lemma_row(x: int, y: int)
    requires
        0 <= x < 22,
        0 <= y < 22,
    ensures
        mask_row(y)[x] == '#' <==> is_drawn(x, y),
{
    reveal_strlit("..........##..........");
    reveal_strlit(".........####.........");
    reveal_strlit("........##..##........");
    reveal_strlit(".......##....##.......");
    reveal_strlit(".....##...##...##.....");
    reveal_strlit("....###...##...###....");
    reveal_strlit("....##..........##....");
    reveal_strlit("....##############....");
    reveal_strlit(".....############.....");
    reveal_strlit("......................");
    assert(x == 0 || x == 1 || x == 2 || x == 3 || x == 4 || x == 5 || x == 6 || x == 7 || x == 8
        || x == 9 || x == 10 || x == 11 || x == 12 || x == 13 || x == 14 || x == 15 || x == 16 || x
        == 17 || x == 18 || x == 19 || x == 20 || x == 21);
}

/// Every point that is drawn is white and opaque, and every other one is clear.
pub proof fn lemma_icon_points(x: int, y: int, part: int)
    requires
        0 <= x < 22,
        0 <= y < 22,
        0 <= part < 4,
    ensures
        TRAY_ICON_SIZE == 22,
        is_drawn(x, y) ==> icon_byte(4 * (22 * y + x) + part) == 255,
        !is_drawn(x, y) ==> icon_byte(4 * (22 * y + x) + part) == 0,
{
    lemma_row(x, y);
    assert((4 * (22 * y + x) + part) / 4 == 22 * y + x);
    assert((22 * y + x) / 22 == y);
    assert((22 * y + x) % 22 == x);
}

/// Each of the four entries means what it stands for.
pub proof fn lemma_entries(
    id: Seq<char>,
    show: Seq<char>,
    upload: Seq<char>,
    watch: Seq<char>,
    quit: Seq<char>,
    recent: Seq<Seq<char>>,
)
    ensures
        id == show ==> menu_meaning(id, show, upload, watch, quit, recent) == Some(
            EventView::TrayShowWindow,
        ),
        id == upload && id != show ==> menu_meaning(id, show, upload, watch, quit, recent) == Some(
            EventView::TrayUpload,
        ),
        id == watch && id != show && id != upload ==> menu_meaning(
            id,
            show,
            upload,
            watch,
            quit,
            recent,
        ) == Some(EventView::TrayToggleWatch),
        id == quit && id != show && id != upload && id != watch ==> menu_meaning(
            id,
            show,
            upload,
            watch,
            quit,
            recent,
        ) == Some(EventView::TrayQuit),
{
}

/// An entry of a link copies the link of its number, if there is one; every other entry
/// means nothing.
pub proof fn lemma_link_entries(
    id: Seq<char>,
    rest: Seq<char>,
    n: usize,
    show: Seq<char>,
    upload: Seq<char>,
    watch: Seq<char>,
    quit: Seq<char>,
    recent: Seq<Seq<char>>,
)
    requires
        id != show && id != upload && id != watch && id != quit,
    ensures
        id == "recent_url_"@ + decimal(n as nat) && n < recent.len() ==> menu_meaning(
            id,
            show,
            upload,
            watch,
            quit,
            recent,
        ) == Some(EventView::TrayCopyUrl(recent[n as int])),
        id == "recent_url_"@ + decimal(n as nat) && n >= recent.len() ==> menu_meaning(
            id,
            show,
            upload,
            watch,
            quit,
            recent,
        ) is None,
        id == "recent_url_"@ + rest && parsed_usize(rest) == Some(n) && n < recent.len()
            ==> menu_meaning(id, show, upload, watch, quit, recent) == Some(
            EventView::TrayCopyUrl(recent[n as int]),
        ),
        id == "recent_url_"@ + rest && parsed_usize(rest) == Some(n) && n >= recent.len()
            ==> menu_meaning(id, show, upload, watch, quit, recent) is None,
        id == "recent_url_"@ + rest && parsed_usize(rest) is None ==> menu_meaning(
            id,
            show,
            upload,
            watch,
            quit,
            recent,
        ) is None,
        !(exists|r: Seq<char>| id == #[trigger] ("recent_url_"@ + r)) ==> menu_meaning(
            id,
            show,
            upload,
            watch,
            quit,
            recent,
        ) is None,
        recent_id(n as nat) == "recent_url_"@ + decimal(n as nat),
{
    let prefix = "recent_url_"@;
    lemma_beginning(id, prefix);
    lemma_usize_round_trip(n);
    if id == prefix + decimal(n as nat) {
        assert(id.skip(prefix.len() as int) =~= decimal(n as nat));
        assert(begins_with(id, prefix));
    }
    if id == prefix + rest {
        assert(id.skip(prefix.len() as int) =~= rest);
    }
}

/// The menu lists the links of the first five records, in their order, and of all of them
/// where there are fewer; it is made anew exactly where these are not the ones it lists.
pub proof fn lemma_listed_links(s: StateView, current: Seq<Seq<char>>, i: int)
    ensures
        s.history.len() <= 5 ==> recent_links(s.history).len() == s.history.len(),
        s.history.len() > 5 ==> recent_links(s.history).len() == 5,
        0 <= i < 5 && i < s.history.len() ==> recent_links(s.history)[i] == s.history[i].url,
        needs_rebuild(s, current) <==> current != recent_links(s.history),
{
}

/// A link is shown as it is up to fifty bytes, and one that is longer by its first
/// forty-seven bytes and three dots, where no character lies across that place.
pub proof fn lemma_shown_links(url: Seq<char>, links: Seq<Seq<char>>, i: int)
    ensures
        encode_utf8(url).len() <= 50 ==> shown_link(url) == url,
        encode_utf8(url).len() > 50 ==> shown_link(url) == decode_utf8(
            encode_utf8(url).subrange(0, 47),
        ) + "..."@,
        can_be_shown(url) <==> encode_utf8(url).len() <= 50 || is_char_boundary(
            encode_utf8(url),
            47,
        ),
        recent_items(links).len() == links.len(),
        0 <= i < links.len() ==> recent_items(links)[i] == (
            "recent_url_"@ + decimal(i as nat),
            shown_link(links[i]),
        ),
{
}

/// The tray says that an upload is under way while one is, and the message otherwise, or
/// that nothing is going on.
pub proof fn lemma_line_in_the_tray(s: StateView)
    ensures
        some_active(s.tasks) ==> tray_status(s) == "状态: 上传中..."@,
        s.status matches Some(m) ==> !some_active(s.tasks) ==> tray_status(s) == "状态: "@ + m.1,
        !some_active(s.tasks) && s.status is None ==> tray_status(s) == "状态: 空闲"@,
{
}

} // verus!
