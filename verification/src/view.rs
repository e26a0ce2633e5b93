//! What the terminal interface shows, apart from drawing it: durations,
//! the geometry of panels, which rows of a list are on screen and how they
//! are numbered, captions, icons and the key help of each screen.
use vstd::prelude::*;
use vstd::utf8::encode_utf8;
use crate::app::{Screen, Tab};
use crate::text::{concat, decimal, format_min_sec, push_decimal, push_str, spec_min_sec};

verus! {

/// A duration in seconds as `m:ss`.
pub fn fmt_dur(s: u64) -> (r: String)
    ensures
        r@ == spec_min_sec(s as nat),
{
    format_min_sec(s)
}

/// A duration in seconds as `m:ss`.
pub fn format_duration(secs: u64) -> (r: String)
    ensures
        r@ == spec_min_sec(secs as nat),
{
    format_min_sec(secs)
}

/// A rectangle of terminal cells.
#[derive(Debug, Clone, Copy, PartialEq, Eq, Structural)]
pub struct Area {
    pub x: u16,
    pub y: u16,
    pub width: u16,
    pub height: u16,
}

/// `a - b`, or 0 when `b` is larger.
pub open spec fn sat_sub(a: int, b: int) -> int {
    if a >= b {
        a - b
    } else {
        0
    }
}

/// A `w` by `h` rectangle centred in `area`, cut down to fit it.
pub open spec fn spec_centered(w: u16, h: u16, area: Area) -> Area {
    Area {
        x: (area.x + sat_sub(area.width as int, w as int) / 2) as u16,
        y: (area.y + sat_sub(area.height as int, h as int) / 2) as u16,
        width: if w < area.width { w } else { area.width },
        height: if h < area.height { h } else { area.height },
    }
}

/// Centre a `w` by `h` rectangle in `area`.
pub fn centered_rect(w: u16, h: u16, area: Area) -> (r: Area)
    requires
        area.x + area.width <= u16::MAX,
        area.y + area.height <= u16::MAX,
    ensures
        r == spec_centered(w, h, area),
{
    let dw: u16 = if area.width >= w { area.width - w } else { 0 };
    let dh: u16 = if area.height >= h { area.height - h } else { 0 };
    Area {
        x: area.x + dw / 2,
        y: area.y + dh / 2,
        width: if w < area.width { w } else { area.width },
        height: if h < area.height { h } else { area.height },
    }
}

/// `area` with `h` cells cut off left and right and `v` top and bottom.
pub open spec fn spec_inner(area: Area, h: u16, v: u16) -> Area {
    Area {
        x: (area.x + h) as u16,
        y: (area.y + v) as u16,
        width: sat_sub(area.width as int, 2 * h) as u16,
        height: sat_sub(area.height as int, 2 * v) as u16,
    }
}

/// Shrink `area` by margins of `h` cells left and right and `v` cells top
/// and bottom.
pub fn inner_rect(area: Area, h: u16, v: u16) -> (r: Area)
    requires
        area.x + h <= u16::MAX,
        area.y + v <= u16::MAX,
        2 * h <= u16::MAX,
        2 * v <= u16::MAX,
    ensures
        r == spec_inner(area, h, v),
{
    let hh: u16 = h * 2;
    let vv: u16 = v * 2;
    Area {
        x: area.x + h,
        y: area.y + v,
        width: if area.width >= hh { area.width - hh } else { 0 },
        height: if area.height >= vv { area.height - vv } else { 0 },
    }
}

/// Rows of a list panel that hold items: the panel's height less its two
/// borders and its header.
pub fn list_visible_height(area: Area) -> (n: usize)
    ensures
        n == sat_sub(area.height as int, 3),
{
    if area.height >= 3 {
        (area.height - 3) as usize
    } else {
        0
    }
}

/// The end of the window of a list that starts at `offset` and shows up to
/// `visible` items of `len`.
pub fn window_end(offset: usize, visible: usize, len: usize) -> (end: usize)
    requires
        offset + visible <= usize::MAX,
    ensures
        end == (if offset + visible < len { offset + visible } else { len as int }),
{
    if offset + visible < len {
        offset + visible
    } else {
        len
    }
}

/// The caption of a list that does not fit its panel: ` first-last/len `,
/// counting from one; empty when the whole list is shown.
pub open spec fn spec_scroll_caption(offset: usize, end: usize, len: usize, visible: usize) -> Seq<char> {
    if len > visible {
        " "@ + decimal(offset as nat + 1) + "-"@ + decimal(end as nat) + "/"@ + decimal(len as nat) + " "@
    } else {
        Seq::empty()
    }
}

/// Build the scroll caption of a list.
pub fn scroll_caption(offset: usize, end: usize, len: usize, visible: usize) -> (s: String)
    requires
        offset < usize::MAX,
    ensures
        s@ == spec_scroll_caption(offset, end, len, visible),
{
    if len > visible {
        let mut s = " ".to_owned();
        push_decimal(&mut s, (offset + 1) as u64);
        push_str(&mut s, "-");
        push_decimal(&mut s, end as u64);
        push_str(&mut s, "/");
        push_decimal(&mut s, len as u64);
        push_str(&mut s, " ");
        s
    } else {
        String::new()
    }
}

/// Icon of the selected row, and of a playing track.
pub const ICON_PLAY: &'static str = "\u{25B6}";

/// Icon of a paused track.
pub const ICON_PAUSE: &'static str = "\u{23F8}";

/// Icon of a track being loaded.
pub const ICON_LOADING: &'static str = "\u{25CC}";

/// Icon of the queue.
pub const ICON_QUEUE: &'static str = "\u{2261}";

/// Icon of the volume, and of an idle player.
pub const ICON_VOL: &'static str = "\u{266A}";

/// A number right-aligned in two columns (`{:2}`).
pub open spec fn spec_pad2(n: nat) -> Seq<char> {
    if n < 10 {
        " "@ + decimal(n)
    } else {
        decimal(n)
    }
}

/// The first cell of row `i` of a list: the play icon on the selected row,
/// else the row's number counted from one.
pub open spec fn spec_row_marker(i: usize, selected: bool) -> Seq<char> {
    if selected {
        " "@ + ICON_PLAY@ + " "@
    } else {
        " "@ + spec_pad2(i as nat + 1) + " "@
    }
}

/// Build the first cell of row `i` of a list.
pub fn row_marker(i: usize, selected: bool) -> (s: String)
    requires
        i < usize::MAX,
    ensures
        s@ == spec_row_marker(i, selected),
{
    if selected {
        let mut s = concat(" ", ICON_PLAY);
        push_str(&mut s, " ");
        s
    } else {
        let n: u64 = (i + 1) as u64;
        let mut s = " ".to_owned();
        if n < 10 {
            push_str(&mut s, " ");
        }
        push_decimal(&mut s, n);
        push_str(&mut s, " ");
        assert(s@ =~= spec_row_marker(i, selected));
        s
    }
}

/// Background of a list row.
#[derive(Debug, Clone, Copy, PartialEq, Eq, Structural)]
pub enum RowShade {
    Selected,
    Even,
    Odd,
}

/// The selected row stands out; the others alternate.
pub fn row_shade(selected: bool, index: usize) -> (r: RowShade)
    ensures
        selected ==> r == RowShade::Selected,
        !selected && index % 2 == 0 ==> r == RowShade::Even,
        !selected && index % 2 == 1 ==> r == RowShade::Odd,
{
    if selected {
        RowShade::Selected
    } else if index % 2 == 0 {
        RowShade::Even
    } else {
        RowShade::Odd
    }
}

/// `n` followed by `noun`, with an `s` unless `n` is one.
pub open spec fn spec_count_caption(n: nat, noun: Seq<char>) -> Seq<char> {
    decimal(n) + " "@ + noun + if n != 1 { "s"@ } else { Seq::empty() }
}

/// Build a count caption such as `3 albums`.
pub fn count_caption(n: usize, noun: &str) -> (s: String)
    ensures
        s@ == spec_count_caption(n as nat, noun@),
{
    let mut s = String::new();
    push_decimal(&mut s, n as u64);
    push_str(&mut s, " ");
    push_str(&mut s, noun);
    if n != 1 {
        push_str(&mut s, "s");
    }
    s
}

/// What the player bar shows in front of the track.
#[derive(Debug, Clone, Copy, PartialEq, Eq, Structural)]
pub enum PlayerIcon {
    Loading,
    Playing,
    Paused,
    Idle,
}

/// Loading wins over playing, playing over a paused track, and a player
/// without a track is idle.
pub fn player_icon(is_loading: bool, is_playing: bool, has_track: bool) -> (r: PlayerIcon)
    ensures
        is_loading ==> r == PlayerIcon::Loading,
        !is_loading && is_playing ==> r == PlayerIcon::Playing,
        !is_loading && !is_playing && has_track ==> r == PlayerIcon::Paused,
        !is_loading && !is_playing && !has_track ==> r == PlayerIcon::Idle,
{
    if is_loading {
        PlayerIcon::Loading
    } else if is_playing {
        PlayerIcon::Playing
    } else if has_track {
        PlayerIcon::Paused
    } else {
        PlayerIcon::Idle
    }
}

/// The position in the queue shown after the playing track, when the queue
/// holds more than one track: `  ≡ position/length`, counting from one.
pub open spec fn spec_queue_info(index: usize, len: usize) -> Seq<char> {
    if len > 1 {
        "  "@ + ICON_QUEUE@ + " "@ + decimal(index as nat + 1) + "/"@ + decimal(len as nat)
    } else {
        Seq::empty()
    }
}

/// Build the queue position shown after the playing track.
pub fn queue_info(index: usize, len: usize) -> (s: String)
    requires
        index < usize::MAX,
    ensures
        s@ == spec_queue_info(index, len),
{
    if len > 1 {
        let mut s = concat("  ", ICON_QUEUE);
        push_str(&mut s, " ");
        push_decimal(&mut s, (index + 1) as u64);
        push_str(&mut s, "/");
        push_decimal(&mut s, len as u64);
        s
    } else {
        String::new()
    }
}

/// Whether `s` holds `word`, as characters.
pub open spec fn holds(s: Seq<char>, word: Seq<char>) -> bool {
    exists|i: int| 0 <= i && i + word.len() <= s.len() && #[trigger] s.subrange(i, i + word.len()) == word
}

/// Whether a status message reports an error: it mentions `rror`, as in
/// both `Error` and `error`. Such messages are shown in red.
pub fn status_is_error(s: &str) -> (b: bool)
    ensures
        b == holds(s@, "rror"@),
{
    let chars = crate::text::chars_of(s);
    let word = crate::text::chars_of("rror");
    let n: usize = word.len();
    let len: usize = chars.len();
    if len < n {
        proof {
            assert forall|i: int| 0 <= i && i + word@.len() <= s@.len() implies !(#[trigger] s@.subrange(i, i + word@.len()) == word@) by {}
        }
        return false;
    }
    let mut i: usize = 0;
    while i <= len - n
        invariant
            chars@ == s@,
            word@ == "rror"@,
            n == word@.len(),
            len == chars@.len(),
            n <= len,
            i <= len - n + 1,
            forall|k: int| 0 <= k < i ==> !(#[trigger] s@.subrange(k, k + n) == word@),
        decreases len + 1 - i,
    {
        let mut j: usize = 0;
        let mut same = true;
        while j < n
            invariant
                chars@ == s@,
                n == word@.len(),
                len == chars@.len(),
                i + n <= len,
                j <= n,
                same == (forall|m: int| 0 <= m < j ==> chars@[i + m] == word@[m]),
            decreases n - j,
        {
            if chars[i + j] != word[j] {
                same = false;
            }
            j = j + 1;
        }
        if same {
            assert(s@.subrange(i as int, i + n) =~= word@);
            return true;
        }
        assert(!(s@.subrange(i as int, i + n) == word@)) by {
            let k = choose|m: int| 0 <= m < n && chars@[i + m] != word@[m];
            assert(s@.subrange(i as int, i + n)[k] != word@[k]);
        }
        i = i + 1;
    }
    false
}

/// The key help of a screen (and tab, on the main screen), as key and
/// action pairs; the login screen has none.
pub open spec fn spec_help_entries(screen: Screen, tab: Tab) -> Option<Seq<(Seq<char>, Seq<char>)>> {
    let tail = seq![("p"@, "Pause"@), ("n/N"@, "Skip"@), ("r"@, "Loop"@), ("Esc"@, "Quit"@)];
    match screen {
        Screen::Login => None,
        Screen::Main => match tab {
            Tab::Search => Some(seq![("Enter"@, "Search/Play"@), ("S-Tab"@, "Trk/Alb"@), ("Tab"@, "Next tab"@), ("\u{2191}\u{2193}"@, "Nav"@)] + tail),
            Tab::Favorites => Some(seq![("Enter"@, "Open"@), ("x"@, "Unfav"@), ("Tab"@, "Next tab"@), ("\u{2191}\u{2193}"@, "Nav"@)] + tail),
            Tab::Playlists => Some(seq![("Enter"@, "Open"@), ("Tab"@, "Next tab"@), ("\u{2191}\u{2193}"@, "Nav"@)] + tail),
        },
        Screen::AlbumView => Some(seq![("Enter"@, "Play"@), ("d"@, "DL"@), ("f"@, "Fav"@), ("Bksp"@, "Back"@)] + tail),
        Screen::PlaylistView => Some(seq![("Enter"@, "Play"@), ("Bksp"@, "Back"@)] + tail),
    }
}

/// The help entries by their text.
pub open spec fn entries_view(v: Seq<(&'static str, &'static str)>) -> Seq<(Seq<char>, Seq<char>)> {
    v.map_values(|e: (&'static str, &'static str)| (e.0@, e.1@))
}

fn push_entry(v: &mut Vec<(&'static str, &'static str)>, key: &'static str, action: &'static str)
    ensures
        final(v)@ == old(v)@.push((key, action)),
{
    v.push((key, action));
}

/// The key help shown at the bottom of a screen.
pub fn help_entries(screen: Screen, tab: Tab) -> (r: Option<Vec<(&'static str, &'static str)>>)
    ensures
        match r {
            Some(v) => spec_help_entries(screen, tab) == Some(entries_view(v@)),
            None => spec_help_entries(screen, tab) is None,
        },
{
    let mut v: Vec<(&'static str, &'static str)> = Vec::new();
    match screen {
        Screen::Login => {
            return None;
        },
        Screen::Main => match tab {
            Tab::Search => {
                push_entry(&mut v, "Enter", "Search/Play");
                push_entry(&mut v, "S-Tab", "Trk/Alb");
                push_entry(&mut v, "Tab", "Next tab");
                push_entry(&mut v, "\u{2191}\u{2193}", "Nav");
            },
            Tab::Favorites => {
                push_entry(&mut v, "Enter", "Open");
                push_entry(&mut v, "x", "Unfav");
                push_entry(&mut v, "Tab", "Next tab");
                push_entry(&mut v, "\u{2191}\u{2193}", "Nav");
            },
            Tab::Playlists => {
                push_entry(&mut v, "Enter", "Open");
                push_entry(&mut v, "Tab", "Next tab");
                push_entry(&mut v, "\u{2191}\u{2193}", "Nav");
            },
        },
        Screen::AlbumView => {
            push_entry(&mut v, "Enter", "Play");
            push_entry(&mut v, "d", "DL");
            push_entry(&mut v, "f", "Fav");
            push_entry(&mut v, "Bksp", "Back");
        },
        Screen::PlaylistView => {
            push_entry(&mut v, "Enter", "Play");
            push_entry(&mut v, "Bksp", "Back");
        },
    }
    push_entry(&mut v, "p", "Pause");
    push_entry(&mut v, "n/N", "Skip");
    push_entry(&mut v, "r", "Loop");
    push_entry(&mut v, "Esc", "Quit");
    assert(spec_help_entries(screen, tab) == Some(entries_view(v@)));
    Some(v)
}

/// What the password field shows: one bullet per byte of the password.
pub open spec fn spec_masked(password: Seq<char>) -> Seq<char> {
    Seq::new(encode_utf8(password).len(), |i: int| '\u{2022}')
}

/// Mask a password for display.
pub fn masked(password: &str) -> (m: String)
    ensures
        m@ == spec_masked(password@),
{
    let n: usize = password.as_bytes().len();
    let mut m = String::new();
    let mut i: usize = 0;
    while i < n
        invariant
            i <= n,
            n == encode_utf8(password@).len(),
            m@ == Seq::new(i as nat, |k: int| '\u{2022}'),
        decreases n - i,
    {
        crate::text::push_char(&mut m, '\u{2022}');
        assert(m@ =~= Seq::new((i + 1) as nat, |k: int| '\u{2022}'));
        i = i + 1;
    }
    m
}

/// The caption of the login button: a notice while the login is under way.
pub fn submit_caption(loading: bool) -> (s: &'static str)
    ensures
        loading ==> s@ == " \u{25CC} Connecting... "@,
        !loading ==> s@ == "  \u{2192} Sign In  "@,
{
    if loading {
        " \u{25CC} Connecting... "
    } else {
        "  \u{2192} Sign In  "
    }
}

/// Whether the playing track can be sought already, as the player bar
/// tells it.
pub fn seek_hint(seekable: bool) -> (s: &'static str)
    ensures
        seekable ==> s@ == "seekable"@,
        !seekable ==> s@ == "streaming"@,
{
    if seekable {
        "seekable"
    } else {
        "streaming"
    }
}

/// Position of a tab in the tab bar.
pub fn tab_index(tab: Tab) -> (i: usize)
    ensures
        tab == Tab::Search ==> i == 0,
        tab == Tab::Favorites ==> i == 1,
        tab == Tab::Playlists ==> i == 2,
{
    match tab {
        Tab::Search => 0,
        Tab::Favorites => 1,
        Tab::Playlists => 2,
    }
}

} // verus!
