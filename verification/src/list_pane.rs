//! One scrollable list of labelled rows, shared by the Artists, Albums, Genre,
//! Format and Playlists tabs: its rows, its selection and scrolling, and the
//! queue a selected row stands for.

use vstd::prelude::*;
use crate::input::{KeyCode, KeyEvent, MouseEvent, MouseKind, is_down, is_up, is_home, is_end, key_is_down, key_is_up, key_is_home, key_is_end};
use crate::geometry::{Rect, spec_bordered_inner, bordered_inner, sat_sub, min_int, max_scroll};
use crate::library::{
    Track, artist_listing, genre_listing, format_listing, album_listing, indices_where, by_artist, by_album,
    by_genre, by_format, format_count,
};
use crate::order::{views, pair_views};
use crate::session::{App, AppAction};
use crate::state::{Tab, Playlist};
use crate::text::{counted, counted_text};

verus! {

/// How many rows a scroll wheel notch moves.
pub const SCROLL_STEP: usize = 3;

/// A row: the label, dim trailing detail such as an album's artist or a
/// track count, and whether it carries the playlist star.
#[derive(Debug, Clone)]
pub struct ListRow {
    pub star: bool,
    pub text: String,
    pub detail: Option<String>,
}

impl ListRow {
    /// The row as plain values: star, label, detail.
    pub open spec fn shown(self) -> (bool, Seq<char>, Option<Seq<char>>) {
        (self.star, self.text@, match self.detail {
            Some(d) => Some(d@),
            None => None,
        })
    }

    /// Columns the label gets in a list `inner_width` wide: what is left
    /// after the two-column indent, the star and its space, and the detail
    /// with its leading space, so details line up on every row.
    pub open spec fn label_columns(self, inner_width: usize) -> usize {
        let used = 2 + (if self.star { 2int } else { 0int });
        match self.detail {
            Some(d) => sat_sub(inner_width as int, used + d@.len() + 1) as usize,
            None => sat_sub(inner_width as int, used) as usize,
        }
    }

    pub fn label_width(&self, inner_width: usize) -> (r: usize)
        ensures
            r == self.label_columns(inner_width),
    {
        let used: usize = if self.star { 4 } else { 2 };
        match &self.detail {
            Some(d) => {
                let n = crate::strings::chars_of(d.as_str()).len();
                if inner_width > used && inner_width - used > n { inner_width - used - n - 1 } else { 0 }
            },
            None => if inner_width > used { inner_width - used } else { 0 },
        }
    }

    pub fn plain(text: String) -> (r: ListRow)
        ensures
            r.shown() == (false, text@, None::<Seq<char>>),
    {
        ListRow { star: false, text, detail: None }
    }

    pub fn with_detail(text: String, detail: String) -> (r: ListRow)
        ensures
            r.shown() == (false, text@, Some(detail@)),
    {
        ListRow { star: false, text, detail: Some(detail) }
    }
}

/// Selection and scroll position of one list.
#[derive(Debug, Clone, Copy, PartialEq, Eq, Structural)]
pub struct ListPane {
    pub selected: usize,
    pub scroll_offset: usize,
    pub hover_row: Option<usize>,
}

pub open spec fn usize_sat_sub(a: usize, b: int) -> usize {
    if a - b < 0 { 0 } else { (a - b) as usize }
}

impl ListPane {
    pub open spec fn with_selected(self, s: int) -> ListPane {
        ListPane { selected: s as usize, scroll_offset: self.scroll_offset, hover_row: self.hover_row }
    }

    /// The list after `code` is pressed over `count` rows: j/Down and k/Up
    /// move by one within the list, g/Home jumps to the top, G/End to the
    /// last row. Nothing moves in an empty list.
    pub open spec fn after_key(self, code: KeyCode, count: nat) -> ListPane {
        if count == 0 {
            self
        } else if is_down(code) {
            if self.selected < count - 1 { self.with_selected(self.selected + 1) } else { self }
        } else if is_up(code) {
            self.with_selected(usize_sat_sub(self.selected, 1) as int)
        } else if is_home(code) {
            ListPane { selected: 0, scroll_offset: 0, hover_row: self.hover_row }
        } else if is_end(code) {
            self.with_selected(count - 1)
        } else {
            self
        }
    }

    /// The list after one wheel notch over `count` rows in a pane `viewport`
    /// rows tall (two of them border): both the view and the selection move
    /// by `SCROLL_STEP`, the view no further than the last full screen, the
    /// selection no further than the last row.
    pub open spec fn after_scroll(self, up: bool, count: nat, viewport: nat) -> ListPane {
        if count == 0 {
            self
        } else if up {
            ListPane {
                selected: usize_sat_sub(self.selected, 3),
                scroll_offset: usize_sat_sub(self.scroll_offset, 3),
                hover_row: self.hover_row,
            }
        } else {
            ListPane {
                selected: min_int(self.selected + 3, count - 1) as usize,
                scroll_offset: min_int(self.scroll_offset + 3, sat_sub(count as int, sat_sub(viewport as int, 2))) as usize,
                hover_row: self.hover_row,
            }
        }
    }

    /// The list after a mouse event in `area`: a left click on a row selects
    /// it, the wheel scrolls.
    pub open spec fn after_mouse(self, event: MouseEvent, area: Rect, count: nat) -> ListPane {
        let inner = spec_bordered_inner(area);
        match event.kind {
            MouseKind::Down => {
                if inner.holds(event.column as int, event.row as int)
                    && self.scroll_offset + (event.row - inner.y) < count {
                    self.with_selected(self.scroll_offset + (event.row - inner.y))
                } else {
                    self
                }
            },
            MouseKind::ScrollDown => self.after_scroll(false, count, area.height as nat),
            MouseKind::ScrollUp => self.after_scroll(true, count, area.height as nat),
            _ => self,
        }
    }

    pub fn new() -> (p: ListPane)
        ensures
            p.selected == 0,
            p.scroll_offset == 0,
            p.hover_row is None,
    {
        ListPane { selected: 0, scroll_offset: 0, hover_row: None }
    }

    /// Moves the selection for `key`; true when the key was Enter on a
    /// non-empty list, so the caller should activate the selected row.
    pub fn handle_key(&mut self, key: KeyEvent, count: usize) -> (activate: bool)
        ensures
            *final(self) == old(self).after_key(key.code, count as nat),
            activate == (count > 0 && key.code == KeyCode::Enter),
    {
        if count == 0 {
            return false;
        }
        let code = key.code;
        if key_is_down(code) {
            if self.selected < count - 1 {
                self.selected = self.selected + 1;
            }
        } else if key_is_up(code) {
            self.selected = if self.selected > 0 { self.selected - 1 } else { 0 };
        } else if key_is_home(code) {
            self.selected = 0;
            self.scroll_offset = 0;
        } else if key_is_end(code) {
            self.selected = count - 1;
        } else if code == KeyCode::Enter {
            return true;
        }
        false
    }

    pub fn handle_mouse(&mut self, event: MouseEvent, area: Rect, count: usize)
        ensures
            *final(self) == old(self).after_mouse(event, area, count as nat),
    {
        match event.kind {
            MouseKind::Down => {
                let inner = bordered_inner(area);
                if inner.contains(event.column, event.row) {
                    let row = (event.row - inner.y) as usize;
                    if let Some(clicked) = self.scroll_offset.checked_add(row) {
                        if clicked < count {
                            self.selected = clicked;
                        }
                    }
                }
            },
            MouseKind::ScrollDown => self.scroll(false, count, area.height as usize),
            MouseKind::ScrollUp => self.scroll(true, count, area.height as usize),
            _ => {},
        }
    }

    /// One wheel notch; `viewport` is the pane's height including borders.
    pub fn scroll(&mut self, up: bool, count: usize, viewport: usize)
        ensures
            *final(self) == old(self).after_scroll(up, count as nat, viewport as nat),
    {
        if count == 0 {
            return;
        }
        let inner_height = if viewport >= 2 { viewport - 2 } else { 0 };
        if up {
            self.scroll_offset = if self.scroll_offset >= SCROLL_STEP { self.scroll_offset - SCROLL_STEP } else { 0 };
            self.selected = if self.selected >= SCROLL_STEP { self.selected - SCROLL_STEP } else { 0 };
        } else {
            let top = max_scroll(count, inner_height);
            let s = self.scroll_offset.saturating_add(SCROLL_STEP);
            self.scroll_offset = if s < top { s } else { top };
            let t = self.selected.saturating_add(SCROLL_STEP);
            self.selected = if t < count - 1 { t } else { count - 1 };
        }
    }

    /// Before drawing `count` rows in `inner_height` rows: the selection is
    /// pulled back into the list, and the view moved so the selection is on
    /// screen and the screen is as full as the list allows.
    pub fn fit_view(&mut self, count: usize, inner_height: usize)
        ensures
            final(self).hover_row == old(self).hover_row,
            final(self).selected == (if old(self).selected >= count { usize_sat_sub(count, 1) } else { old(self).selected }),
            count == 0 || inner_height == 0 ==> final(self).scroll_offset == old(self).scroll_offset,
            count > 0 && inner_height > 0 ==> {
                &&& final(self).scroll_offset <= final(self).selected < final(self).scroll_offset + inner_height
                &&& final(self).scroll_offset <= sat_sub(count as int, inner_height as int)
            },
    {
        if self.selected >= count {
            self.selected = if count > 0 { count - 1 } else { 0 };
        }
        if count > 0 && inner_height > 0 {
            if self.selected < self.scroll_offset {
                self.scroll_offset = self.selected;
            }
            if self.selected - self.scroll_offset >= inner_height {
                self.scroll_offset = self.selected - inner_height + 1;
            }
            let top = max_scroll(count, inner_height);
            if self.scroll_offset > top {
                self.scroll_offset = top;
            }
        }
    }

    /// Pulls the selection and the view back inside a list of `len` rows.
    pub fn clamp_to(&mut self, len: usize)
        ensures
            final(self).selected == min_int(old(self).selected as int, sat_sub(len as int, 1)),
            final(self).scroll_offset == min_int(old(self).scroll_offset as int, sat_sub(len as int, 1)),
            final(self).hover_row == old(self).hover_row,
    {
        let last = if len > 0 { len - 1 } else { 0 };
        if self.selected > last {
            self.selected = last;
        }
        if self.scroll_offset > last {
            self.scroll_offset = last;
        }
    }
}

/// Labels of the Playlists tab rows.
pub open spec fn playlist_names(pls: Seq<Playlist>) -> Seq<Seq<char>> {
    pls.map_values(|p: Playlist| p.name@)
}

/// How many rows `tab` lists.
pub open spec fn listing_len(app: App, tab: Tab) -> nat {
    let lib = app.library.tracks@;
    match tab {
        Tab::Artists => artist_listing(lib).len(),
        Tab::Albums => album_listing(lib).len(),
        Tab::Genre => genre_listing(lib).len(),
        Tab::Format => format_listing(lib).len(),
        Tab::Playlists => app.playlists@.len(),
        _ => 0,
    }
}

/// Row `k` of `tab`: star, label and detail.
pub open spec fn list_row(app: App, tab: Tab, k: int) -> (bool, Seq<char>, Option<Seq<char>>) {
    let lib = app.library.tracks@;
    match tab {
        Tab::Artists => (false, artist_listing(lib)[k], None),
        Tab::Albums => (false, album_listing(lib)[k].0, Some(album_listing(lib)[k].1)),
        Tab::Genre => (false, genre_listing(lib)[k], None),
        Tab::Format => (false, format_listing(lib)[k], Some(counted(format_count(lib, format_listing(lib)[k], lib.len() as int)))),
        _ => (true, app.playlists@[k].name@, Some(counted(app.playlists@[k].tracks@.len()))),
    }
}

/// The rows `tab` shows: artists, (album, artist) pairs, genres, formats
/// with their track counts, or playlists with their sizes. Queue and
/// Directories have their own panes and get no rows.
pub fn rows_for(app: &App, tab: Tab) -> (r: Vec<ListRow>)
    ensures
        r@.len() == listing_len(*app, tab),
        forall|k: int| 0 <= k < r@.len() ==> #[trigger] r@[k].shown() == list_row(*app, tab, k),
{
    let mut rows: Vec<ListRow> = Vec::new();
    match tab {
        Tab::Artists => {
            let names = app.library.get_artists();
            let mut i: usize = 0;
            while i < names.len()
                invariant
                    i <= names@.len(),
                    views(names@) == artist_listing(app.library.tracks@),
                    rows@.len() == i,
                    forall|k: int| 0 <= k < i ==> #[trigger] rows@[k].shown() == list_row(*app, tab, k),
                    tab == Tab::Artists,
                decreases names@.len() - i,
            {
                assert(views(names@)[i as int] == names@[i as int]@);
                rows.push(ListRow::plain(names[i].clone()));
                i += 1;
            }
        },
        Tab::Albums => {
            let albums = app.library.get_albums();
            let mut i: usize = 0;
            while i < albums.len()
                invariant
                    i <= albums@.len(),
                    pair_views(albums@) == album_listing(app.library.tracks@),
                    rows@.len() == i,
                    forall|k: int| 0 <= k < i ==> #[trigger] rows@[k].shown() == list_row(*app, tab, k),
                    tab == Tab::Albums,
                decreases albums@.len() - i,
            {
                assert(pair_views(albums@)[i as int] == (albums@[i as int].0@, albums@[i as int].1@));
                rows.push(ListRow::with_detail(albums[i].0.clone(), albums[i].1.clone()));
                i += 1;
            }
        },
        Tab::Genre => {
            let names = app.library.get_genres();
            let mut i: usize = 0;
            while i < names.len()
                invariant
                    i <= names@.len(),
                    views(names@) == genre_listing(app.library.tracks@),
                    rows@.len() == i,
                    forall|k: int| 0 <= k < i ==> #[trigger] rows@[k].shown() == list_row(*app, tab, k),
                    tab == Tab::Genre,
                decreases names@.len() - i,
            {
                assert(views(names@)[i as int] == names@[i as int]@);
                rows.push(ListRow::plain(names[i].clone()));
                i += 1;
            }
        },
        Tab::Format => {
            let counts = app.library.format_counts();
            let ghost keys = counts@.map_values(|p: (String, usize)| p.0@);
            proof {
                crate::order::lemma_sorted_of(keys);
            }
            let mut i: usize = 0;
            while i < counts.len()
                invariant
                    i <= counts@.len(),
                    keys == counts@.map_values(|p: (String, usize)| p.0@),
                    keys == format_listing(app.library.tracks@),
                    forall|k: int| 0 <= k < counts@.len() ==> #[trigger] counts@[k].1 == format_count(app.library.tracks@, counts@[k].0@, app.library.tracks@.len() as int),
                    rows@.len() == i,
                    forall|k: int| 0 <= k < i ==> #[trigger] rows@[k].shown() == list_row(*app, tab, k),
                    tab == Tab::Format,
                decreases counts@.len() - i,
            {
                assert(keys[i as int] == counts@[i as int].0@);
                let detail = counted_text(counts[i].1 as u64);
                rows.push(ListRow::with_detail(counts[i].0.clone(), detail));
                i += 1;
            }
        },
        Tab::Playlists => {
            let mut i: usize = 0;
            while i < app.playlists.len()
                invariant
                    i <= app.playlists@.len(),
                    rows@.len() == i,
                    forall|k: int| 0 <= k < i ==> #[trigger] rows@[k].shown() == list_row(*app, tab, k),
                    tab == Tab::Playlists,
                decreases app.playlists@.len() - i,
            {
                let pl = &app.playlists[i];
                let detail = counted_text(pl.tracks.len() as u64);
                rows.push(ListRow { star: true, text: pl.name.clone(), detail: Some(detail) });
                i += 1;
            }
        },
        _ => {},
    }
    rows
}

/// How many rows `tab` lists.
pub fn row_count(app: &App, tab: Tab) -> (r: usize)
    ensures
        r == listing_len(*app, tab),
{
    match tab {
        Tab::Artists => app.library.get_artists().len(),
        Tab::Albums => app.library.get_albums().len(),
        Tab::Genre => app.library.get_genres().len(),
        Tab::Format => app.library.get_formats().len(),
        Tab::Playlists => app.playlists.len(),
        _ => 0,
    }
}

/// The library indices row `selected` of `tab` stands for, or None when
/// there is no such row.
pub open spec fn activation_tracks(app: App, tab: Tab, selected: int) -> Option<Seq<usize>> {
    let lib = app.library.tracks@;
    let n = lib.len() as int;
    if !(0 <= selected < listing_len(app, tab)) {
        None
    } else {
        match tab {
            Tab::Artists => Some(indices_where(lib, by_artist(artist_listing(lib)[selected]), n)),
            Tab::Albums => Some(indices_where(lib, by_album(album_listing(lib)[selected].0, album_listing(lib)[selected].1), n)),
            Tab::Genre => Some(indices_where(lib, by_genre(genre_listing(lib)[selected]), n)),
            Tab::Format => Some(indices_where(lib, by_format(format_listing(lib)[selected]), n)),
            Tab::Playlists => Some(app.playlists@[selected].tracks@),
            _ => None,
        }
    }
}

/// What activating row `selected` of `tab` queues: its tracks, when there
/// are any.
pub open spec fn activation(app: App, tab: Tab, selected: int) -> Option<Seq<usize>> {
    match activation_tracks(app, tab, selected) {
        Some(t) => if t.len() > 0 { Some(t) } else { None },
        None => None,
    }
}

/// The action for activating row `selected` of `tab`: queue its tracks.
pub fn activate(app: &App, tab: Tab, selected: usize) -> (r: Option<AppAction>)
    ensures
        match activation(*app, tab, selected as int) {
            Some(t) => r matches Some(AppAction::AddToQueue(v)) && v@ == t,
            None => r is None,
        },
{
    let tracks: Vec<usize> = match tab {
        Tab::Artists => {
            let names = app.library.get_artists();
            if selected >= names.len() {
                return None;
            }
            assert(views(names@)[selected as int] == names@[selected as int]@);
            app.library.get_tracks_by_artist(names[selected].as_str())
        },
        Tab::Albums => {
            let albums = app.library.get_albums();
            if selected >= albums.len() {
                return None;
            }
            assert(pair_views(albums@)[selected as int] == (albums@[selected as int].0@, albums@[selected as int].1@));
            app.library.get_tracks_by_album(albums[selected].0.as_str(), albums[selected].1.as_str())
        },
        Tab::Genre => {
            let names = app.library.get_genres();
            if selected >= names.len() {
                return None;
            }
            assert(views(names@)[selected as int] == names@[selected as int]@);
            app.library.get_tracks_by_genre(names[selected].as_str())
        },
        Tab::Format => {
            let names = app.library.get_formats();
            if selected >= names.len() {
                return None;
            }
            assert(views(names@)[selected as int] == names@[selected as int]@);
            app.library.get_tracks_by_format(names[selected].as_str())
        },
        Tab::Playlists => {
            if selected >= app.playlists.len() {
                return None;
            }
            app.playlists[selected].tracks.clone()
        },
        _ => {
            return None;
        },
    };
    if tracks.len() > 0 {
        Some(AppAction::AddToQueue(tracks))
    } else {
        None
    }
}

} // verus!
