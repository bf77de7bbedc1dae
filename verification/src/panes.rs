//! The dashboard panes other than the shared list: the genre list, the
//! directory browser, the play queue, the lyrics view and the search list.
//! Each keeps its own selection and scroll position and turns keys, clicks
//! and wheel notches into moves of its own or into actions for the session.

use vstd::prelude::*;
use crate::input::{
    KeyCode, KeyEvent, MouseEvent, MouseKind, is_down, is_up, is_home, is_end, is_char, key_is_down, key_is_up,
    key_is_home, key_is_end, key_is_char,
};
use crate::geometry::{Rect, spec_bordered_inner, bordered_inner, min_int};
use crate::library::{genre_listing, indices_where, by_genre, in_dir};
use crate::list_pane::usize_sat_sub;
use crate::order::views;
use crate::paths::{spec_parent, spec_join, path_parent, path_join};
use crate::session::{App, AppAction};
use crate::strings::str_eq;

verus! {

/// The view offset that keeps row `selected` of `count` rows on a screen of
/// `height` rows: scrolled up to it when above, down to it when below.
pub open spec fn spec_keep_in_view(selected: usize, scroll: usize, count: nat, height: nat) -> usize {
    if count == 0 {
        scroll
    } else {
        let s = if selected < scroll { selected } else { scroll };
        if height > 0 && selected >= s + height { (selected - height + 1) as usize } else { s }
    }
}

pub fn keep_in_view(selected: usize, scroll: usize, count: usize, height: usize) -> (r: usize)
    ensures
        r == spec_keep_in_view(selected, scroll, count as nat, height as nat),
        count > 0 && height > 0 ==> r <= selected < r + height,
{
    if count == 0 {
        return scroll;
    }
    let s = if selected < scroll { selected } else { scroll };
    if height > 0 && selected - s >= height {
        selected - height + 1
    } else {
        s
    }
}

/// One wheel notch of a position over `count` rows: three up, stopping at
/// the top, or three down, stopping at the last row.
pub open spec fn notch(v: usize, up: bool, count: nat) -> usize {
    if up { usize_sat_sub(v, 3) } else { min_int(v + 3, count - 1) as usize }
}

pub fn notch_exec(v: usize, up: bool, count: usize) -> (r: usize)
    requires
        count > 0,
    ensures
        r == notch(v, up, count as nat),
{
    if up {
        if v >= 3 { v - 3 } else { 0 }
    } else {
        let w = v.saturating_add(3);
        if w < count - 1 { w } else { count - 1 }
    }
}

/// The row a left click at (column, row) lands on in a bordered pane whose
/// view starts at `scroll`, if it lands on one of `count` rows.
pub open spec fn clicked(area: Rect, column: u16, row: u16, scroll: usize, count: nat) -> Option<usize> {
    let inner = spec_bordered_inner(area);
    if inner.holds(column as int, row as int) && scroll + (row - inner.y) < count {
        Some((scroll + (row - inner.y)) as usize)
    } else {
        None
    }
}

pub fn clicked_exec(area: Rect, column: u16, row: u16, scroll: usize, count: usize) -> (r: Option<usize>)
    ensures
        r == clicked(area, column, row, scroll, count as nat),
{
    let inner = bordered_inner(area);
    if inner.contains(column, row) {
        match scroll.checked_add((row - inner.y) as usize) {
            Some(c) => if c < count { Some(c) } else { None },
            None => None,
        }
    } else {
        None
    }
}

// ------------------------------------------------------------------ genres

/// The genre list with its own key handling.
#[derive(Debug, Clone, Copy, PartialEq, Eq, Structural)]
pub struct GenrePane {
    pub selected: usize,
    pub scroll_offset: usize,
    pub hover_row: Option<usize>,
}

impl GenrePane {
    pub fn new() -> (p: GenrePane)
        ensures
            p.selected == 0,
            p.scroll_offset == 0,
            p.hover_row is None,
    {
        GenrePane { selected: 0, scroll_offset: 0, hover_row: None }
    }

    /// The pane after `code` over `count` genres.
    pub open spec fn after_key(self, code: KeyCode, count: nat) -> GenrePane {
        if count == 0 {
            self
        } else if is_down(code) {
            GenrePane { selected: if self.selected < count - 1 { (self.selected + 1) as usize } else { self.selected }, ..self }
        } else if is_up(code) {
            GenrePane { selected: usize_sat_sub(self.selected, 1), ..self }
        } else if is_home(code) {
            GenrePane { selected: 0, scroll_offset: 0, ..self }
        } else if is_end(code) {
            GenrePane { selected: (count - 1) as usize, ..self }
        } else {
            self
        }
    }

    /// Moves the selection; Enter queues the tracks of the selected genre
    /// when it has any.
    pub fn handle_key(&mut self, key: KeyEvent, app: &App) -> (r: Option<AppAction>)
        ensures
            ({
                let genres = genre_listing(app.library.tracks@);
                let lib = app.library.tracks@;
                &&& *final(self) == old(self).after_key(key.code, genres.len())
                &&& if genres.len() > 0 && key.code == KeyCode::Enter && old(self).selected < genres.len()
                    && indices_where(lib, by_genre(genres[old(self).selected as int]), lib.len() as int).len() > 0 {
                    r matches Some(AppAction::AddToQueue(v))
                        && v@ == indices_where(lib, by_genre(genres[old(self).selected as int]), lib.len() as int)
                } else {
                    r is None
                }
            }),
    {
        let genres = app.library.get_genres();
        let count = genres.len();
        if count == 0 {
            return None;
        }
        let code = key.code;
        if key_is_down(code) {
            if self.selected < count - 1 {
                self.selected = self.selected + 1;
            }
            None
        } else if key_is_up(code) {
            if self.selected > 0 {
                self.selected = self.selected - 1;
            }
            None
        } else if code == KeyCode::Enter {
            if self.selected < count {
                assert(views(genres@)[self.selected as int] == genres@[self.selected as int]@);
                let tracks = app.library.get_tracks_by_genre(genres[self.selected].as_str());
                if tracks.len() > 0 {
                    return Some(AppAction::AddToQueue(tracks));
                }
            }
            None
        } else if key_is_home(code) {
            self.selected = 0;
            self.scroll_offset = 0;
            None
        } else if key_is_end(code) {
            self.selected = count - 1;
            None
        } else {
            None
        }
    }

    /// A click selects the genre under it; the wheel scrolls.
    pub fn handle_mouse(&mut self, event: MouseEvent, area: Rect, app: &App) -> (r: Option<AppAction>)
        ensures
            r is None,
            ({
                let count = genre_listing(app.library.tracks@).len();
                match event.kind {
                    MouseKind::Down => *final(self) == (match clicked(area, event.column, event.row, old(self).scroll_offset, count) {
                        Some(c) => GenrePane { selected: c, ..*old(self) },
                        None => *old(self),
                    }),
                    MouseKind::ScrollDown => *final(self) == old(self).after_scroll(false, count),
                    MouseKind::ScrollUp => *final(self) == old(self).after_scroll(true, count),
                    _ => *final(self) == *old(self),
                }
            }),
    {
        let count = app.library.get_genres().len();
        match event.kind {
            MouseKind::Down => {
                if let Some(c) = clicked_exec(area, event.column, event.row, self.scroll_offset, count) {
                    self.selected = c;
                }
                None
            },
            MouseKind::ScrollDown => self.handle_scroll(false, app),
            MouseKind::ScrollUp => self.handle_scroll(true, app),
            _ => None,
        }
    }

    pub open spec fn after_scroll(self, up: bool, count: nat) -> GenrePane {
        if count == 0 {
            self
        } else {
            GenrePane { scroll_offset: notch(self.scroll_offset, up, count), selected: notch(self.selected, up, count), ..self }
        }
    }

    /// One wheel notch: view and selection move by three within the list.
    pub fn handle_scroll(&mut self, up: bool, app: &App) -> (r: Option<AppAction>)
        ensures
            r is None,
            *final(self) == old(self).after_scroll(up, genre_listing(app.library.tracks@).len()),
    {
        let count = app.library.get_genres().len();
        if count == 0 {
            return None;
        }
        self.scroll_offset = notch_exec(self.scroll_offset, up, count);
        self.selected = notch_exec(self.selected, up, count);
        None
    }
}

// ------------------------------------------------------------ directories

/// A row of the directory browser.
#[derive(Debug, Clone)]
pub enum DirEntry {
    ParentDir,
    Directory(String),
    Track(usize),
}

/// A directory-browser row as plain values: 0 for `..`, 1 for a
/// subdirectory (with its name), 2 for a track (with its library index).
pub open spec fn dir_entry_shown(e: DirEntry) -> (u8, Seq<char>, usize) {
    match e {
        DirEntry::ParentDir => (0u8, Seq::empty(), 0usize),
        DirEntry::Directory(n) => (1u8, n@, 0usize),
        DirEntry::Track(i) => (2u8, Seq::empty(), i),
    }
}

/// The rows the browser shows for `dir`: `..` unless `dir` is the music
/// directory itself, then its subdirectories in order, then its tracks.
pub open spec fn dir_rows(app: App, dir: Seq<char>) -> Seq<(u8, Seq<char>, usize)> {
    let lib = app.library.tracks@;
    let subs = crate::order::sorted_of(crate::library::subdir_set(lib, dir, lib.len() as int));
    let tracks = indices_where(lib, in_dir(dir), lib.len() as int);
    let up: Seq<(u8, Seq<char>, usize)> = if dir == app.music_dir@ { Seq::empty() } else { seq![(0u8, Seq::<char>::empty(), 0usize)] };
    up + subs.map_values(|s: Seq<char>| (1u8, s, 0usize)) + tracks.map_values(|i: usize| (2u8, Seq::<char>::empty(), i))
}

/// The tracks a key on the directory browser queues: Enter on a track row
/// queues that one track.
pub open spec fn dir_key_queue(o: DirBrowserPane, code: KeyCode) -> Option<Seq<usize>> {
    if o.entries@.len() > 0 && code == KeyCode::Enter && o.rows()[o.selected as int].0 == 2 {
        Some(seq![o.rows()[o.selected as int].2])
    } else {
        None
    }
}

/// The browser after a key: Backspace, or Enter on `..`, moves to the
/// parent directory (when there is one) and Enter on a subdirectory moves
/// into it, each back at the top and relisted; otherwise j/k, g/G move the
/// selection. Nothing happens in an empty list.
pub open spec fn dir_key_post(o: DirBrowserPane, app: App, code: KeyCode, f: DirBrowserPane) -> bool {
    let n = o.entries@.len();
    let row = o.rows()[o.selected as int];
    let moves_up = (code == KeyCode::Backspace || (code == KeyCode::Enter && row.0 == 0))
        && spec_parent(o.current_dir@) is Some;
    if n == 0 {
        f == o
    } else if moves_up {
        &&& f.current_dir@ == spec_parent(o.current_dir@)->0
        &&& f.rows() == dir_rows(app, f.current_dir@)
        &&& f.selected == 0 && f.scroll_offset == 0
        &&& f.hover_row == o.hover_row
    } else if code == KeyCode::Enter && row.0 == 1 {
        &&& f.current_dir@ == spec_join(o.current_dir@, row.1)
        &&& f.rows() == dir_rows(app, f.current_dir@)
        &&& f.selected == 0 && f.scroll_offset == 0
        &&& f.hover_row == o.hover_row
    } else {
        &&& f.current_dir == o.current_dir && f.entries@ == o.entries@
        &&& f.hover_row == o.hover_row
        &&& f.selected == (if is_down(code) && o.selected < n - 1 {
            (o.selected + 1) as usize
        } else if is_up(code) {
            usize_sat_sub(o.selected, 1)
        } else if is_home(code) {
            0
        } else if is_end(code) {
            (n - 1) as usize
        } else {
            o.selected
        })
        &&& f.scroll_offset == (if is_home(code) { 0 } else { o.scroll_offset })
    }
}

/// The directory browser: where it is, what it lists there, and the
/// selection and scroll position in that list.
#[derive(Debug, Clone)]
pub struct DirBrowserPane {
    pub current_dir: String,
    pub entries: Vec<DirEntry>,
    pub selected: usize,
    pub scroll_offset: usize,
    pub hover_row: Option<usize>,
}

impl DirBrowserPane {
    /// The rows as plain values.
    pub open spec fn rows(self) -> Seq<(u8, Seq<char>, usize)> {
        self.entries@.map_values(|e: DirEntry| dir_entry_shown(e))
    }

    /// The selection is on a row, or there are no rows.
    pub open spec fn selection_ok(self) -> bool {
        self.entries@.len() == 0 || self.selected < self.entries@.len()
    }

    /// A browser at `music_dir` that has not listed anything yet.
    pub fn new(music_dir: String) -> (p: DirBrowserPane)
        ensures
            p.current_dir@ == music_dir@,
            p.entries@.len() == 0,
            p.selected == 0,
            p.scroll_offset == 0,
            p.hover_row is None,
    {
        DirBrowserPane { current_dir: music_dir, entries: Vec::new(), selected: 0, scroll_offset: 0, hover_row: None }
    }

    /// Relists the current directory.
    pub fn refresh(&mut self, app: &App)
        ensures
            final(self).rows() == dir_rows(*app, old(self).current_dir@),
            final(self).current_dir == old(self).current_dir,
            final(self).selected == old(self).selected,
            final(self).scroll_offset == old(self).scroll_offset,
            final(self).hover_row == old(self).hover_row,
    {
        let mut entries: Vec<DirEntry> = Vec::new();
        let ghost dir = self.current_dir@;
        let ghost up: Seq<(u8, Seq<char>, usize)> = if dir == app.music_dir@ { Seq::empty() } else { seq![(0u8, Seq::<char>::empty(), 0usize)] };
        if !str_eq(self.current_dir.as_str(), app.music_dir.as_str()) {
            entries.push(DirEntry::ParentDir);
        }
        assert(entries@.map_values(|e: DirEntry| dir_entry_shown(e)) =~= up);
        let (subdirs, tracks) = app.library.get_directory_entries(self.current_dir.as_str());
        proof {
            crate::order::lemma_sorted_of(views(subdirs@));
        }
        let ghost subs = views(subdirs@).map_values(|s: Seq<char>| (1u8, s, 0usize));
        let mut i: usize = 0;
        while i < subdirs.len()
            invariant
                i <= subdirs@.len(),
                entries@.map_values(|e: DirEntry| dir_entry_shown(e)) == up + subs.take(i as int),
                subs == views(subdirs@).map_values(|s: Seq<char>| (1u8, s, 0usize)),
            decreases subdirs@.len() - i,
        {
            let ghost before = entries@;
            let name = subdirs[i].clone();
            assert(name@ == views(subdirs@)[i as int]);
            entries.push(DirEntry::Directory(name));
            assert(entries@.map_values(|e: DirEntry| dir_entry_shown(e)) =~= before.map_values(|e: DirEntry| dir_entry_shown(e)).push((1u8, name@, 0usize)));
            assert(subs.take(i + 1) =~= subs.take(i as int).push(subs[i as int]));
            assert(entries@.map_values(|e: DirEntry| dir_entry_shown(e)) =~= up + subs.take(i + 1));
            i += 1;
        }
        assert(subs.take(subdirs@.len() as int) =~= subs);
        let ghost trs = tracks@.map_values(|k: usize| (2u8, Seq::<char>::empty(), k));
        let mut j: usize = 0;
        while j < tracks.len()
            invariant
                j <= tracks@.len(),
                entries@.map_values(|e: DirEntry| dir_entry_shown(e)) == up + subs + trs.take(j as int),
                trs == tracks@.map_values(|k: usize| (2u8, Seq::<char>::empty(), k)),
            decreases tracks@.len() - j,
        {
            let ghost before = entries@;
            entries.push(DirEntry::Track(tracks[j]));
            assert(entries@.map_values(|e: DirEntry| dir_entry_shown(e)) =~= before.map_values(|e: DirEntry| dir_entry_shown(e)).push((2u8, Seq::<char>::empty(), tracks@[j as int])));
            assert(trs.take(j + 1) =~= trs.take(j as int).push(trs[j as int]));
            assert(entries@.map_values(|e: DirEntry| dir_entry_shown(e)) =~= up + subs + trs.take(j + 1));
            j += 1;
        }
        assert(trs.take(tracks@.len() as int) =~= trs);
        self.entries = entries;
    }

    /// Moves into `dir`, back at the top, and lists it.
    fn enter_dir(&mut self, dir: String, app: &App)
        ensures
            final(self).current_dir@ == dir@,
            final(self).rows() == dir_rows(*app, dir@),
            final(self).selected == 0,
            final(self).scroll_offset == 0,
            final(self).hover_row == old(self).hover_row,
    {
        self.current_dir = dir;
        self.selected = 0;
        self.scroll_offset = 0;
        self.refresh(app);
    }

    /// Keys: j/k move, Enter opens `..` or a subdirectory or queues a track,
    /// Backspace goes up, g/G jump to the ends.
    pub fn handle_key(&mut self, key: KeyEvent, app: &App) -> (r: Option<AppAction>)
        requires
            old(self).selection_ok(),
        ensures
            final(self).selection_ok(),
            final(self).hover_row == old(self).hover_row,
            dir_key_post(*old(self), *app, key.code, *final(self)),
            match dir_key_queue(*old(self), key.code) {
                Some(t) => r matches Some(AppAction::AddToQueue(v)) && v@ == t,
                None => r is None,
            },
    {
        let count = self.entries.len();
        if count == 0 {
            return None;
        }
        let code = key.code;
        let ghost row = self.rows()[self.selected as int];
        if key_is_down(code) {
            if self.selected < count - 1 {
                self.selected = self.selected + 1;
            }
            None
        } else if key_is_up(code) {
            if self.selected > 0 {
                self.selected = self.selected - 1;
            }
            None
        } else if code == KeyCode::Enter {
            let target: Option<String> = match &self.entries[self.selected] {
                DirEntry::ParentDir => path_parent(self.current_dir.as_str()),
                DirEntry::Directory(name) => Some(path_join(self.current_dir.as_str(), name.as_str())),
                DirEntry::Track(idx) => {
                    let mut v: Vec<usize> = Vec::new();
                    v.push(*idx);
                    assert(v@ =~= seq![row.2]);
                    return Some(AppAction::AddToQueue(v));
                },
            };
            if let Some(d) = target {
                self.enter_dir(d, app);
            }
            None
        } else if code == KeyCode::Backspace {
            if let Some(parent) = path_parent(self.current_dir.as_str()) {
                self.enter_dir(parent, app);
            }
            None
        } else if key_is_home(code) {
            self.selected = 0;
            self.scroll_offset = 0;
            None
        } else if key_is_end(code) {
            self.selected = count - 1;
            None
        } else {
            None
        }
    }

    pub open spec fn after_scroll(self, up: bool) -> DirBrowserPane {
        let count = self.entries@.len();
        if count == 0 {
            self
        } else {
            DirBrowserPane { scroll_offset: notch(self.scroll_offset, up, count), selected: notch(self.selected, up, count), ..self }
        }
    }

    /// A click selects the row under it; the wheel scrolls.
    pub fn handle_mouse(&mut self, event: MouseEvent, area: Rect, app: &App) -> (r: Option<AppAction>)
        ensures
            r is None,
            final(self).current_dir == old(self).current_dir,
            final(self).entries == old(self).entries,
            final(self).hover_row == old(self).hover_row,
            old(self).selection_ok() ==> final(self).selection_ok(),
            match event.kind {
                MouseKind::Down => match clicked(area, event.column, event.row, old(self).scroll_offset, old(self).entries@.len()) {
                    Some(c) => final(self).selected == c && final(self).scroll_offset == old(self).scroll_offset,
                    None => final(self).selected == old(self).selected && final(self).scroll_offset == old(self).scroll_offset,
                },
                MouseKind::ScrollDown => final(self).selected == old(self).after_scroll(false).selected
                    && final(self).scroll_offset == old(self).after_scroll(false).scroll_offset,
                MouseKind::ScrollUp => final(self).selected == old(self).after_scroll(true).selected
                    && final(self).scroll_offset == old(self).after_scroll(true).scroll_offset,
                _ => final(self).selected == old(self).selected && final(self).scroll_offset == old(self).scroll_offset,
            },
    {
        let count = self.entries.len();
        match event.kind {
            MouseKind::Down => {
                if let Some(c) = clicked_exec(area, event.column, event.row, self.scroll_offset, count) {
                    self.selected = c;
                }
                None
            },
            MouseKind::ScrollDown => self.handle_scroll(false, app),
            MouseKind::ScrollUp => self.handle_scroll(true, app),
            _ => None,
        }
    }

    /// One wheel notch: view and selection move by three within the list.
    pub fn handle_scroll(&mut self, up: bool, app: &App) -> (r: Option<AppAction>)
        ensures
            r is None,
            final(self).current_dir == old(self).current_dir,
            final(self).entries == old(self).entries,
            final(self).hover_row == old(self).hover_row,
            final(self).selected == old(self).after_scroll(up).selected,
            final(self).scroll_offset == old(self).after_scroll(up).scroll_offset,
            old(self).selection_ok() ==> final(self).selection_ok(),
    {
        let count = self.entries.len();
        if count == 0 {
            return None;
        }
        self.scroll_offset = notch_exec(self.scroll_offset, up, count);
        self.selected = notch_exec(self.selected, up, count);
        None
    }
}

// ------------------------------------------------------------------ queue

/// The play queue's view position; its selection lives in the session.
#[derive(Debug, Clone, Copy, PartialEq, Eq, Structural)]
pub struct QueuePane {
    pub scroll_offset: usize,
    pub hover_row: Option<usize>,
}

/// The action a key asks of the queue pane, over a queue of `count`
/// entries with entry `selected` selected.
pub open spec fn queue_key_action(code: KeyCode, count: nat, selected: usize) -> Option<AppAction> {
    if code == KeyCode::Char('c') {
        Some(AppAction::ClearQueue)
    } else if count == 0 {
        None
    } else if code == KeyCode::Enter {
        Some(AppAction::PlayQueueIndex(selected))
    } else if code == KeyCode::Char('d') || code == KeyCode::Delete {
        Some(AppAction::RemoveFromQueue(selected))
    } else {
        None
    }
}

impl QueuePane {
    pub fn new() -> (p: QueuePane)
        ensures
            p.scroll_offset == 0,
            p.hover_row is None,
    {
        QueuePane { scroll_offset: 0, hover_row: None }
    }

    /// Enter plays the selected entry, d/Delete removes it, c clears the
    /// queue; j/k are the session's own.
    pub fn handle_key(&mut self, key: KeyEvent, app: &App) -> (r: Option<AppAction>)
        ensures
            *final(self) == *old(self),
            r == queue_key_action(key.code, app.queue.tracks@.len(), app.queue.selected_index),
    {
        let count = app.queue.tracks.len();
        let code = key.code;
        if key_is_char(code, 'c') {
            return Some(AppAction::ClearQueue);
        }
        if count == 0 {
            return None;
        }
        if code == KeyCode::Enter {
            Some(AppAction::PlayQueueIndex(app.queue.selected_index))
        } else if key_is_char(code, 'd') || code == KeyCode::Delete {
            Some(AppAction::RemoveFromQueue(app.queue.selected_index))
        } else {
            None
        }
    }

    /// The wheel scrolls; a click is the session's to handle.
    pub fn handle_mouse(&mut self, event: MouseEvent, area: Rect, app: &App) -> (r: Option<AppAction>)
        ensures
            match event.kind {
                MouseKind::ScrollDown => final(self).scroll_offset == old(self).after_scroll(false, app.queue.tracks@.len()).scroll_offset
                    && r == queue_scroll_action(false, app.queue.tracks@.len(), app.queue.selected_index),
                MouseKind::ScrollUp => final(self).scroll_offset == old(self).after_scroll(true, app.queue.tracks@.len()).scroll_offset
                    && r == queue_scroll_action(true, app.queue.tracks@.len(), app.queue.selected_index),
                _ => *final(self) == *old(self) && r is None,
            },
            final(self).hover_row == old(self).hover_row,
    {
        match event.kind {
            MouseKind::ScrollDown => self.handle_scroll(false, app),
            MouseKind::ScrollUp => self.handle_scroll(true, app),
            _ => None,
        }
    }

    pub open spec fn after_scroll(self, up: bool, count: nat) -> QueuePane {
        if count == 0 { self } else { QueuePane { scroll_offset: notch(self.scroll_offset, up, count), ..self } }
    }

    /// One wheel notch: the view moves by three, and the selection is asked
    /// to follow.
    pub fn handle_scroll(&mut self, up: bool, app: &App) -> (r: Option<AppAction>)
        ensures
            *final(self) == old(self).after_scroll(up, app.queue.tracks@.len()),
            r == queue_scroll_action(up, app.queue.tracks@.len(), app.queue.selected_index),
    {
        let count = app.queue.tracks.len();
        if count == 0 {
            return None;
        }
        self.scroll_offset = notch_exec(self.scroll_offset, up, count);
        Some(AppAction::SetQueueSelection(notch_exec(app.queue.selected_index, up, count)))
    }
}

/// The selection a wheel notch asks for in a queue of `count` entries.
pub open spec fn queue_scroll_action(up: bool, count: nat, selected: usize) -> Option<AppAction> {
    if count == 0 { None } else { Some(AppAction::SetQueueSelection(notch(selected, up, count))) }
}

// ----------------------------------------------------------------- lyrics

/// The lyrics view's scroll position, in lines.
#[derive(Debug, Clone, Copy, PartialEq, Eq, Structural)]
pub struct LyricsPane {
    pub scroll_offset: u16,
}

pub open spec fn u16_sat_add(a: u16, b: int) -> u16 {
    if a + b > u16::MAX { u16::MAX } else { (a + b) as u16 }
}

pub open spec fn u16_sat_sub(a: u16, b: int) -> u16 {
    if a - b < 0 { 0 } else { (a - b) as u16 }
}

impl LyricsPane {
    pub fn new() -> (p: LyricsPane)
        ensures
            p.scroll_offset == 0,
    {
        LyricsPane { scroll_offset: 0 }
    }

    /// j/k scroll by a line, g returns to the top.
    pub fn handle_key(&mut self, key: KeyEvent, app: &App) -> (r: Option<AppAction>)
        ensures
            r is None,
            final(self).scroll_offset == (if is_down(key.code) {
                u16_sat_add(old(self).scroll_offset, 1)
            } else if is_up(key.code) {
                u16_sat_sub(old(self).scroll_offset, 1)
            } else if is_home(key.code) {
                0
            } else {
                old(self).scroll_offset
            }),
    {
        let code = key.code;
        if key_is_down(code) {
            self.scroll_offset = self.scroll_offset.saturating_add(1);
        } else if key_is_up(code) {
            self.scroll_offset = self.scroll_offset.saturating_sub(1);
        } else if key_is_home(code) {
            self.scroll_offset = 0;
        }
        None
    }

    /// The wheel scrolls by three lines.
    pub fn handle_mouse(&mut self, event: MouseEvent, area: Rect, app: &App) -> (r: Option<AppAction>)
        ensures
            r is None,
            final(self).scroll_offset == (match event.kind {
                MouseKind::ScrollDown => u16_sat_add(old(self).scroll_offset, 3),
                MouseKind::ScrollUp => u16_sat_sub(old(self).scroll_offset, 3),
                _ => old(self).scroll_offset,
            }),
    {
        match event.kind {
            MouseKind::ScrollDown => {
                self.scroll_offset = self.scroll_offset.saturating_add(3);
            },
            MouseKind::ScrollUp => {
                self.scroll_offset = self.scroll_offset.saturating_sub(3);
            },
            _ => {},
        }
        None
    }

    pub fn handle_scroll(&mut self, up: bool, app: &App) -> (r: Option<AppAction>)
        ensures
            r is None,
            final(self).scroll_offset == (if up {
                u16_sat_sub(old(self).scroll_offset, 3)
            } else {
                u16_sat_add(old(self).scroll_offset, 3)
            }),
    {
        if up {
            self.scroll_offset = self.scroll_offset.saturating_sub(3);
        } else {
            self.scroll_offset = self.scroll_offset.saturating_add(3);
        }
        None
    }
}

// ----------------------------------------------------------------- search

/// The search result list: selection, view, and whether the query line is
/// being edited.
#[derive(Debug, Clone, Copy, PartialEq, Eq, Structural)]
pub struct SearchPane {
    pub selected: usize,
    pub scroll_offset: usize,
    pub input_mode: bool,
    pub hover_row: Option<usize>,
}

impl SearchPane {
    pub fn new() -> (p: SearchPane)
        ensures
            p.selected == 0,
            p.scroll_offset == 0,
            !p.input_mode,
            p.hover_row is None,
    {
        SearchPane { selected: 0, scroll_offset: 0, input_mode: false, hover_row: None }
    }

    /// One wheel notch over the session's search results.
    pub fn handle_scroll(&mut self, up: bool, app: &App) -> (r: Option<AppAction>)
        ensures
            r is None,
            ({
                let count = app.search_results@.len();
                if count == 0 {
                    *final(self) == *old(self)
                } else {
                    *final(self) == SearchPane {
                        scroll_offset: notch(old(self).scroll_offset, up, count),
                        selected: notch(old(self).selected, up, count),
                        ..*old(self)
                    }
                }
            }),
    {
        let count = app.search_results.len();
        if count == 0 {
            return None;
        }
        self.scroll_offset = notch_exec(self.scroll_offset, up, count);
        self.selected = notch_exec(self.selected, up, count);
        None
    }
}

} // verus!
