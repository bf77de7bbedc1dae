//! Small enumerations that describe the player's mode and the visible
//! dashboard, with their cyclic orderings and their persisted labels.

use vstd::prelude::*;

verus! {

#[derive(Debug, Clone, Copy, PartialEq, Eq, Structural)]
pub enum SyncState {
    Idle,
    Scanning,
}

#[derive(Debug, Clone, Copy, PartialEq, Eq, Structural)]
pub enum PlayState {
    Playing,
    Paused,
    Stopped,
}

#[derive(Debug, Clone, Copy, PartialEq, Eq, Structural)]
pub enum RepeatMode {
    Off,
    All,
    One,
}

/// The label under which a repeat mode is saved.
pub open spec fn repeat_label(m: RepeatMode) -> Seq<char> {
    match m {
        RepeatMode::Off => "Off"@,
        RepeatMode::All => "All"@,
        RepeatMode::One => "One"@,
    }
}

/// The repeat mode a saved label restores to; anything unknown is `Off`.
pub open spec fn repeat_from_label(s: Seq<char>) -> RepeatMode {
    if s == "All"@ {
        RepeatMode::All
    } else if s == "One"@ {
        RepeatMode::One
    } else {
        RepeatMode::Off
    }
}

impl RepeatMode {
    /// Off → All → One → Off.
    pub open spec fn successor(self) -> RepeatMode {
        match self {
            RepeatMode::Off => RepeatMode::All,
            RepeatMode::All => RepeatMode::One,
            RepeatMode::One => RepeatMode::Off,
        }
    }

    pub fn next(self) -> (r: Self)
        ensures
            r == self.successor(),
    {
        match self {
            RepeatMode::Off => RepeatMode::All,
            RepeatMode::All => RepeatMode::One,
            RepeatMode::One => RepeatMode::Off,
        }
    }

    pub fn as_str(self) -> (s: &'static str)
        ensures
            s@ == repeat_label(self),
    {
        match self {
            RepeatMode::Off => "Off",
            RepeatMode::All => "All",
            RepeatMode::One => "One",
        }
    }

    pub fn from_label(s: &str) -> (r: Self)
        ensures
            r == repeat_from_label(s@),
    {
        if crate::strings::str_eq(s, "All") {
            RepeatMode::All
        } else if crate::strings::str_eq(s, "One") {
            RepeatMode::One
        } else {
            RepeatMode::Off
        }
    }

    /// The glyph the status bar shows: the same repeat icon for Off and All
    /// (told apart by colour), the repeat-once icon for One.
    pub fn symbol(self) -> (s: &'static str)
        ensures
            s@ == (if self == RepeatMode::One { "\u{F0458}"@ } else { "\u{F0456}"@ }),
    {
        match self {
            RepeatMode::Off => "\u{F0456}",
            RepeatMode::All => "\u{F0456}",
            RepeatMode::One => "\u{F0458}",
        }
    }
}

#[derive(Debug, Clone, Copy, PartialEq, Eq, Structural)]
pub enum Tab {
    Queue,
    Directories,
    Artists,
    Albums,
    Genre,
    Format,
    Playlists,
}

/// Number of tabs in the tab bar.
pub const TAB_COUNT: usize = 7;

/// Position of each tab in the tab bar, left to right.
pub open spec fn tab_position(t: Tab) -> nat {
    match t {
        Tab::Queue => 0,
        Tab::Directories => 1,
        Tab::Artists => 2,
        Tab::Albums => 3,
        Tab::Genre => 4,
        Tab::Format => 5,
        Tab::Playlists => 6,
    }
}

/// The tab at bar position `i`, falling back to Queue past the end.
pub open spec fn tab_at(i: int) -> Tab {
    if i == 0 {
        Tab::Queue
    } else if i == 1 {
        Tab::Directories
    } else if i == 2 {
        Tab::Artists
    } else if i == 3 {
        Tab::Albums
    } else if i == 4 {
        Tab::Genre
    } else if i == 5 {
        Tab::Format
    } else if i == 6 {
        Tab::Playlists
    } else {
        Tab::Queue
    }
}

pub open spec fn tab_title(t: Tab) -> Seq<char> {
    match t {
        Tab::Queue => "Queue"@,
        Tab::Directories => "Directories"@,
        Tab::Artists => "Artists"@,
        Tab::Albums => "Albums"@,
        Tab::Genre => "Genre"@,
        Tab::Format => "Format"@,
        Tab::Playlists => "Playlists"@,
    }
}

/// Character count of each tab title.
pub open spec fn tab_title_len(t: Tab) -> nat {
    match t {
        Tab::Queue => 5,
        Tab::Directories => 11,
        Tab::Artists => 7,
        Tab::Albums => 6,
        Tab::Genre => 5,
        Tab::Format => 6,
        Tab::Playlists => 9,
    }
}

impl Tab {
    /// Every tab, in tab-bar order.
    pub fn all() -> (r: [Tab; 7])
        ensures
            forall|i: int| 0 <= i < 7 ==> #[trigger] r@[i] == tab_at(i),
    {
        [Tab::Queue, Tab::Directories, Tab::Artists, Tab::Albums, Tab::Genre, Tab::Format, Tab::Playlists]
    }

    pub fn title(self) -> (s: &'static str)
        ensures
            s@ == tab_title(self),
    {
        match self {
            Tab::Queue => "Queue",
            Tab::Directories => "Directories",
            Tab::Artists => "Artists",
            Tab::Albums => "Albums",
            Tab::Genre => "Genre",
            Tab::Format => "Format",
            Tab::Playlists => "Playlists",
        }
    }

    /// Byte length of the title; every title is ASCII, so this is also its
    /// width in columns.
    pub fn title_len(self) -> (n: usize)
        ensures
            n == tab_title_len(self),
    {
        match self {
            Tab::Queue => 5,
            Tab::Directories => 11,
            Tab::Artists => 7,
            Tab::Albums => 6,
            Tab::Genre => 5,
            Tab::Format => 6,
            Tab::Playlists => 9,
        }
    }

    pub fn index(self) -> (i: usize)
        ensures
            i == tab_position(self),
    {
        match self {
            Tab::Queue => 0,
            Tab::Directories => 1,
            Tab::Artists => 2,
            Tab::Albums => 3,
            Tab::Genre => 4,
            Tab::Format => 5,
            Tab::Playlists => 6,
        }
    }

    pub fn from_index(i: usize) -> (t: Self)
        ensures
            t == tab_at(i as int),
    {
        if i == 0 {
            Tab::Queue
        } else if i == 1 {
            Tab::Directories
        } else if i == 2 {
            Tab::Artists
        } else if i == 3 {
            Tab::Albums
        } else if i == 4 {
            Tab::Genre
        } else if i == 5 {
            Tab::Format
        } else if i == 6 {
            Tab::Playlists
        } else {
            Tab::Queue
        }
    }
}

#[derive(Debug, Clone, Copy, PartialEq, Eq, Structural)]
pub enum FocusedPane {
    Library,
    Playlist,
    Lyrics,
}

impl FocusedPane {
    /// Library → Playlist → Lyrics → Library.
    pub open spec fn following(self) -> FocusedPane {
        match self {
            FocusedPane::Library => FocusedPane::Playlist,
            FocusedPane::Playlist => FocusedPane::Lyrics,
            FocusedPane::Lyrics => FocusedPane::Library,
        }
    }

    /// The reverse of `following`.
    pub open spec fn preceding(self) -> FocusedPane {
        match self {
            FocusedPane::Library => FocusedPane::Lyrics,
            FocusedPane::Playlist => FocusedPane::Library,
            FocusedPane::Lyrics => FocusedPane::Playlist,
        }
    }

    pub fn next(self) -> (r: Self)
        ensures
            r == self.following(),
    {
        match self {
            FocusedPane::Library => FocusedPane::Playlist,
            FocusedPane::Playlist => FocusedPane::Lyrics,
            FocusedPane::Lyrics => FocusedPane::Library,
        }
    }

    pub fn prev(self) -> (r: Self)
        ensures
            r == self.preceding(),
    {
        match self {
            FocusedPane::Library => FocusedPane::Lyrics,
            FocusedPane::Playlist => FocusedPane::Library,
            FocusedPane::Lyrics => FocusedPane::Playlist,
        }
    }
}

#[derive(Debug, Clone, Copy, PartialEq, Eq, Structural)]
pub enum InfoView {
    Clock,
    AlbumArt,
}

pub open spec fn info_view_label(v: InfoView) -> Seq<char> {
    match v {
        InfoView::Clock => "Clock"@,
        InfoView::AlbumArt => "AlbumArt"@,
    }
}

/// The view a saved label restores to; anything unknown is the clock.
pub open spec fn info_view_from_label(s: Seq<char>) -> InfoView {
    if s == "AlbumArt"@ {
        InfoView::AlbumArt
    } else {
        InfoView::Clock
    }
}

impl InfoView {
    pub open spec fn toggled(self) -> InfoView {
        match self {
            InfoView::Clock => InfoView::AlbumArt,
            InfoView::AlbumArt => InfoView::Clock,
        }
    }

    pub fn next(self) -> (r: Self)
        ensures
            r == self.toggled(),
    {
        match self {
            InfoView::Clock => InfoView::AlbumArt,
            InfoView::AlbumArt => InfoView::Clock,
        }
    }

    pub fn as_str(self) -> (s: &'static str)
        ensures
            s@ == info_view_label(self),
    {
        match self {
            InfoView::Clock => "Clock",
            InfoView::AlbumArt => "AlbumArt",
        }
    }

    pub fn from_label(s: &str) -> (r: Self)
        ensures
            r == info_view_from_label(s@),
    {
        if crate::strings::str_eq(s, "AlbumArt") {
            InfoView::AlbumArt
        } else {
            InfoView::Clock
        }
    }
}

/// Volume is kept in percent, 0 to 100, stepped by 5.
pub const VOLUME_STEP: u32 = 5;

/// What is playing and how. Times are in milliseconds.
#[derive(Debug, Clone, Copy)]
pub struct PlaybackState {
    pub state: PlayState,
    pub position_ms: u64,
    pub duration_ms: u64,
    /// Percent, 0 to 100.
    pub volume: u32,
    pub shuffle: bool,
    pub repeat: RepeatMode,
}

impl PlaybackState {
    /// Stopped at the start, volume 80%, shuffle and repeat off.
    pub fn default() -> (p: PlaybackState)
        ensures
            p.state == PlayState::Stopped,
            p.position_ms == 0,
            p.duration_ms == 0,
            p.volume == 80,
            !p.shuffle,
            p.repeat == RepeatMode::Off,
    {
        PlaybackState {
            state: PlayState::Stopped,
            position_ms: 0,
            duration_ms: 0,
            volume: 80,
            shuffle: false,
            repeat: RepeatMode::Off,
        }
    }
}

/// The play queue: library indices, the one playing, the one selected.
#[derive(Debug, Clone)]
pub struct QueueState {
    pub tracks: Vec<usize>,
    pub current_index: Option<usize>,
    pub selected_index: usize,
    pub scroll_offset: usize,
}

impl QueueState {
    pub fn new() -> (q: QueueState)
        ensures
            q.tracks@.len() == 0,
            q.current_index is None,
            q.selected_index == 0,
            q.scroll_offset == 0,
    {
        QueueState { tracks: Vec::new(), current_index: None, selected_index: 0, scroll_offset: 0 }
    }
}

/// A named playlist: the library indices it holds, and the saved paths the
/// current library does not have (kept so an unmounted drive loses nothing).
#[derive(Debug, Clone)]
pub struct Playlist {
    pub name: String,
    pub tracks: Vec<usize>,
    pub missing: Vec<String>,
}

impl Playlist {
    pub fn new(name: &str) -> (p: Playlist)
        ensures
            p.name@ == name@,
            p.tracks@.len() == 0,
            p.missing@.len() == 0,
    {
        Playlist { name: name.to_owned(), tracks: Vec::new(), missing: Vec::new() }
    }
}

/// Cycling the repeat mode three times comes back to where it started.
pub proof fn lemma_repeat_cycle(m: RepeatMode)
    ensures
        m.successor().successor().successor() == m,
        m.successor() != m,
{
}

/// A saved repeat mode restores to itself.
pub proof fn lemma_repeat_label_round_trip(m: RepeatMode)
    ensures
        repeat_from_label(repeat_label(m)) == m,
{
    reveal_strlit("Off");
    reveal_strlit("All");
    reveal_strlit("One");
    assert("Off"@[0] != "All"@[0]);
    assert("Off"@[1] != "One"@[1]);
    assert("One"@[0] != "All"@[0]);
}

/// The tab bar position of a tab leads back to that tab, and every position
/// in the bar names the tab placed there.
pub proof fn lemma_tab_index_round_trip(t: Tab, i: int)
    ensures
        tab_at(tab_position(t) as int) == t,
        0 <= i < TAB_COUNT ==> tab_position(tab_at(i)) == i,
{
}

/// Focus moved forward then back, or back then forward, is unchanged; three
/// steps forward visit every pane and return.
pub proof fn lemma_focus_cycle(p: FocusedPane)
    ensures
        p.following().preceding() == p,
        p.preceding().following() == p,
        p.following().following().following() == p,
{
}

/// The info view toggles between exactly two views, and a saved view restores
/// to itself.
pub proof fn lemma_info_view_round_trip(v: InfoView)
    ensures
        v.toggled().toggled() == v,
        v.toggled() != v,
        info_view_from_label(info_view_label(v)) == v,
{
    reveal_strlit("Clock");
    reveal_strlit("AlbumArt");
    assert("Clock"@.len() != "AlbumArt"@.len());
}

} // verus!
