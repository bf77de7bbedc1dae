//! The Queue tab's library overview: a playlist section (all tracks, then
//! each playlist), the directories that hold tracks, and the albums, each
//! under a header and set apart by blank separator rows.

use vstd::prelude::*;
use crate::input::{
    KeyCode, KeyEvent, MouseEvent, MouseKind, is_down, is_up, is_home, is_end, key_is_down, key_is_up, key_is_home,
    key_is_end,
};
use crate::geometry::Rect;
use crate::library::{Track, album_listing, indices_where, by_album};
use crate::list_pane::usize_sat_sub;
use crate::order::{sorted_of, lemma_sorted_of, strictly_sorted, views, pair_views, insert_sorted_unique};
use crate::panes::{clicked, clicked_exec, notch, notch_exec};
use crate::paths::{spec_parent, spec_file_name, path_parent, path_file_name};
use crate::session::{App, AppAction};
use crate::state::Playlist;
use crate::strings::{str_eq, push_all};
use crate::text::{counted, counted_text};

verus! {

/// The name of the directory a track sits in, if its path has one.
pub open spec fn dir_name_of(t: Track) -> Option<Seq<char>> {
    match spec_parent(t.path@) {
        Some(p) => spec_file_name(p),
        None => None,
    }
}

/// The names of the directories holding the first `n` tracks.
pub open spec fn dir_name_set(lib: Seq<Track>, n: int) -> Set<Seq<char>> {
    Set::new(|x: Seq<char>| exists|k: int| 0 <= k < n && #[trigger] dir_name_of(lib[k]) == Some(x))
}

/// Those names in order, each once.
pub open spec fn dir_listing(lib: Seq<Track>) -> Seq<Seq<char>> {
    sorted_of(dir_name_set(lib, lib.len() as int))
}

/// Tracks in a directory called `name`.
pub open spec fn named_dir(name: Seq<char>) -> spec_fn(Track) -> bool {
    |t: Track| dir_name_of(t) == Some(name)
}

#[derive(Debug, Clone, Copy, PartialEq, Eq, Structural)]
pub enum EntryKind {
    Header,
    Separator,
    AllTracks,
    Playlist,
    Directory,
    Album,
}

/// A row of the overview.
#[derive(Debug, Clone)]
pub enum LibraryEntry {
    SectionHeader(String),
    Separator,
    AllTracks(usize),
    PlaylistEntry { idx: usize, name: String, count: usize },
    FavoriteDir(String),
    Album { name: String, artist: String },
}

/// A row as plain values: its kind, its text (a header's label, a
/// playlist's, directory's or album's name), an album's artist, and two
/// numbers (the library size for All Tracks; a playlist's index and size).
pub open spec fn entry_shown(e: LibraryEntry) -> (EntryKind, Seq<char>, Seq<char>, nat, nat) {
    match e {
        LibraryEntry::SectionHeader(t) => (EntryKind::Header, t@, Seq::empty(), 0, 0),
        LibraryEntry::Separator => (EntryKind::Separator, Seq::empty(), Seq::empty(), 0, 0),
        LibraryEntry::AllTracks(n) => (EntryKind::AllTracks, Seq::empty(), Seq::empty(), n as nat, 0),
        LibraryEntry::PlaylistEntry { idx, name, count } => (EntryKind::Playlist, name@, Seq::empty(), idx as nat, count as nat),
        LibraryEntry::FavoriteDir(d) => (EntryKind::Directory, d@, Seq::empty(), 0, 0),
        LibraryEntry::Album { name, artist } => (EntryKind::Album, name@, artist@, 0, 0),
    }
}

pub open spec fn shown_all(v: Seq<LibraryEntry>) -> Seq<(EntryKind, Seq<char>, Seq<char>, nat, nat)> {
    v.map_values(|e: LibraryEntry| entry_shown(e))
}

pub open spec fn header(label: Seq<char>) -> (EntryKind, Seq<char>, Seq<char>, nat, nat) {
    (EntryKind::Header, label, Seq::empty(), 0, 0)
}

pub open spec fn separator() -> (EntryKind, Seq<char>, Seq<char>, nat, nat) {
    (EntryKind::Separator, Seq::empty(), Seq::empty(), 0, 0)
}

pub open spec fn playlist_rows(pls: Seq<Playlist>) -> Seq<(EntryKind, Seq<char>, Seq<char>, nat, nat)> {
    Seq::new(pls.len(), |i: int| (EntryKind::Playlist, pls[i].name@, Seq::empty(), i as nat, pls[i].tracks@.len()))
}

pub open spec fn directory_rows(dirs: Seq<Seq<char>>) -> Seq<(EntryKind, Seq<char>, Seq<char>, nat, nat)> {
    dirs.map_values(|d: Seq<char>| (EntryKind::Directory, d, Seq::<char>::empty(), 0nat, 0nat))
}

pub open spec fn album_rows(albums: Seq<(Seq<char>, Seq<char>)>) -> Seq<(EntryKind, Seq<char>, Seq<char>, nat, nat)> {
    albums.map_values(|p: (Seq<char>, Seq<char>)| (EntryKind::Album, p.0, p.1, 0nat, 0nat))
}

/// The whole overview for `app`.
pub open spec fn library_entries(app: App) -> Seq<(EntryKind, Seq<char>, Seq<char>, nat, nat)> {
    let lib = app.library.tracks@;
    let dirs = dir_listing(lib);
    let albums = album_listing(lib);
    seq![header("\u{F054} Playlist"@), (EntryKind::AllTracks, Seq::<char>::empty(), Seq::<char>::empty(), lib.len(), 0nat)]
        + playlist_rows(app.playlists@)
        + seq![separator(), header("\u{F054} Directories "@ + counted(dirs.len()))]
        + directory_rows(dirs)
        + seq![separator(), header("\u{F054} Albums "@ + counted(albums.len()))]
        + album_rows(albums)
}

/// Whether row `k` of the overview is a separator.
pub open spec fn is_separator(app: App, k: int) -> bool {
    0 <= k < library_entries(app).len() && library_entries(app)[k].0 == EntryKind::Separator
}

/// The library indices that activating row `k` queues, when it stands for
/// any: the whole library, a playlist, a directory or an album.
pub open spec fn library_activation(app: App, k: int) -> Option<Seq<usize>> {
    let entries = library_entries(app);
    let lib = app.library.tracks@;
    let n = lib.len() as int;
    if !(0 <= k < entries.len()) {
        None
    } else {
        let e = entries[k];
        let tracks: Seq<usize> = match e.0 {
            EntryKind::AllTracks => Seq::new(lib.len(), |i: int| i as usize),
            EntryKind::Playlist => if e.3 < app.playlists@.len() { app.playlists@[e.3 as int].tracks@ } else { Seq::empty() },
            EntryKind::Directory => indices_where(lib, named_dir(e.1), n),
            EntryKind::Album => indices_where(lib, by_album(e.1, e.2), n),
            _ => Seq::empty(),
        };
        if tracks.len() > 0 { Some(tracks) } else { None }
    }
}

/// The overview's selection and scroll position.
#[derive(Debug, Clone, Copy, PartialEq, Eq, Structural)]
pub struct LibraryPane {
    pub selected: usize,
    pub scroll_offset: usize,
    pub hover_row: Option<usize>,
}

impl LibraryPane {
    pub fn new() -> (p: LibraryPane)
        ensures
            p.selected == 0,
            p.scroll_offset == 0,
            p.hover_row is None,
    {
        LibraryPane { selected: 0, scroll_offset: 0, hover_row: None }
    }

    /// The names of the directories that hold tracks, in order.
    fn directory_names(app: &App) -> (r: Vec<String>)
        ensures
            views(r@) == dir_listing(app.library.tracks@),
    {
        let ghost lib = app.library.tracks@;
        let mut set: Vec<String> = Vec::new();
        let mut i: usize = 0;
        assert(views(set@).to_set() =~= dir_name_set(lib, 0));
        while i < app.library.tracks.len()
            invariant
                i <= lib.len(),
                lib == app.library.tracks@,
                strictly_sorted(views(set@)),
                views(set@).to_set() == dir_name_set(lib, i as int),
            decreases lib.len() - i,
        {
            let name: Option<String> = match path_parent(app.library.tracks[i].path.as_str()) {
                Some(parent) => path_file_name(parent.as_str()),
                None => None,
            };
            assert(name matches Some(x) ==> dir_name_of(lib[i as int]) == Some(x@));
            assert(name is None ==> dir_name_of(lib[i as int]) is None);
            match name {
                Some(x) => {
                    let ghost xv = x@;
                    insert_sorted_unique(&mut set, x);
                    assert(dir_name_set(lib, i + 1) =~= dir_name_set(lib, i as int).insert(xv));
                },
                None => {
                    assert(dir_name_set(lib, i + 1) =~= dir_name_set(lib, i as int));
                },
            }
            i += 1;
        }
        proof {
            lemma_sorted_of(views(set@));
        }
        set
    }

    /// The rows of the overview.
    pub fn build_entries(app: &App) -> (r: Vec<LibraryEntry>)
        ensures
            shown_all(r@) == library_entries(*app),
    {
        let ghost lib = app.library.tracks@;
        let mut entries: Vec<LibraryEntry> = Vec::new();
        entries.push(LibraryEntry::SectionHeader(String::from_str("\u{F054} Playlist")));
        entries.push(LibraryEntry::AllTracks(app.library.tracks.len()));
        let ghost head = seq![header("\u{F054} Playlist"@), (EntryKind::AllTracks, Seq::<char>::empty(), Seq::<char>::empty(), lib.len(), 0nat)];
        assert(shown_all(entries@) =~= head);
        let ghost pr = playlist_rows(app.playlists@);
        let mut i: usize = 0;
        while i < app.playlists.len()
            invariant
                i <= app.playlists@.len(),
                pr == playlist_rows(app.playlists@),
                shown_all(entries@) == head + pr.take(i as int),
            decreases app.playlists@.len() - i,
        {
            let ghost before = entries@;
            let pl = &app.playlists[i];
            entries.push(LibraryEntry::PlaylistEntry { idx: i, name: pl.name.clone(), count: pl.tracks.len() });
            assert(shown_all(entries@) =~= shown_all(before).push(pr[i as int]));
            assert(pr.take(i + 1) =~= pr.take(i as int).push(pr[i as int]));
            i += 1;
        }
        assert(pr.take(app.playlists@.len() as int) =~= pr);

        let dirs = Self::directory_names(app);
        entries.push(LibraryEntry::Separator);
        let mut dir_header = String::from_str("\u{F054} Directories ");
        let count_text = counted_text(dirs.len() as u64);
        push_all(&mut dir_header, count_text.as_str());
        entries.push(LibraryEntry::SectionHeader(dir_header));
        let ghost dl = dir_listing(lib);
        let ghost mid = head + pr + seq![separator(), header("\u{F054} Directories "@ + counted(dl.len()))];
        assert(shown_all(entries@) =~= mid);
        let ghost dr = directory_rows(dl);
        let mut j: usize = 0;
        while j < dirs.len()
            invariant
                j <= dirs@.len(),
                views(dirs@) == dl,
                dr == directory_rows(dl),
                shown_all(entries@) == mid + dr.take(j as int),
            decreases dirs@.len() - j,
        {
            let ghost before = entries@;
            let d = dirs[j].clone();
            assert(d@ == dl[j as int]);
            entries.push(LibraryEntry::FavoriteDir(d));
            assert(shown_all(entries@) =~= shown_all(before).push(dr[j as int]));
            assert(dr.take(j + 1) =~= dr.take(j as int).push(dr[j as int]));
            j += 1;
        }
        assert(dr.take(dirs@.len() as int) =~= dr);

        let albums = app.library.get_albums();
        entries.push(LibraryEntry::Separator);
        let mut album_header = String::from_str("\u{F054} Albums ");
        let album_count = counted_text(albums.len() as u64);
        push_all(&mut album_header, album_count.as_str());
        entries.push(LibraryEntry::SectionHeader(album_header));
        let ghost al = album_listing(lib);
        let ghost mid2 = mid + dr + seq![separator(), header("\u{F054} Albums "@ + counted(al.len()))];
        assert(shown_all(entries@) =~= mid2);
        let ghost ar = album_rows(al);
        let mut k: usize = 0;
        while k < albums.len()
            invariant
                k <= albums@.len(),
                pair_views(albums@) == al,
                ar == album_rows(al),
                shown_all(entries@) == mid2 + ar.take(k as int),
            decreases albums@.len() - k,
        {
            let ghost before = entries@;
            assert(pair_views(albums@)[k as int] == (albums@[k as int].0@, albums@[k as int].1@));
            entries.push(LibraryEntry::Album { name: albums[k].0.clone(), artist: albums[k].1.clone() });
            assert(shown_all(entries@) =~= shown_all(before).push(ar[k as int]));
            assert(ar.take(k + 1) =~= ar.take(k as int).push(ar[k as int]));
            k += 1;
        }
        assert(ar.take(albums@.len() as int) =~= ar);
        assert(shown_all(entries@) =~= library_entries(*app));
        entries
    }

    /// How many rows the overview has.
    pub fn row_count(&self, app: &App) -> (r: usize)
        ensures
            r == library_entries(*app).len(),
    {
        Self::build_entries(app).len()
    }

    /// The pane after `code`: j/k move by one row, stepping over a
    /// separator unless it is the last row in that direction; g/G jump to
    /// the ends.
    pub open spec fn after_key(self, code: KeyCode, app: App) -> LibraryPane {
        let count = library_entries(app).len();
        if count == 0 {
            self
        } else if is_down(code) {
            if self.selected < count - 1 {
                let s1 = self.selected + 1;
                LibraryPane { selected: (if is_separator(app, s1) && s1 < count - 1 { s1 + 1 } else { s1 }) as usize, ..self }
            } else {
                self
            }
        } else if is_up(code) {
            if self.selected > 0 {
                let s1 = self.selected - 1;
                LibraryPane { selected: (if is_separator(app, s1) && s1 > 0 { s1 - 1 } else { s1 }) as usize, ..self }
            } else {
                self
            }
        } else if is_home(code) {
            LibraryPane { selected: 0, scroll_offset: 0, ..self }
        } else if is_end(code) {
            LibraryPane { selected: (count - 1) as usize, ..self }
        } else {
            self
        }
    }

    /// Moves the selection; Enter queues what the selected row stands for.
    pub fn handle_key(&mut self, key: KeyEvent, app: &App) -> (r: Option<AppAction>)
        ensures
            *final(self) == old(self).after_key(key.code, *app),
            if key.code == KeyCode::Enter && library_activation(*app, old(self).selected as int) is Some {
                r matches Some(AppAction::AddToQueue(v)) && v@ == library_activation(*app, old(self).selected as int)->0
            } else {
                r is None
            },
    {
        let entries = Self::build_entries(app);
        let ghost es = library_entries(*app);
        let count = entries.len();
        if count == 0 {
            return None;
        }
        let code = key.code;
        if key_is_down(code) {
            if self.selected < count - 1 {
                self.selected = self.selected + 1;
                let sep = match &entries[self.selected] {
                    LibraryEntry::Separator => true,
                    _ => false,
                };
                assert(sep == (es[self.selected as int].0 == EntryKind::Separator));
                if sep && self.selected < count - 1 {
                    self.selected = self.selected + 1;
                }
            }
            None
        } else if key_is_up(code) {
            if self.selected > 0 {
                self.selected = self.selected - 1;
                let sep = self.selected < count && match &entries[self.selected] {
                    LibraryEntry::Separator => true,
                    _ => false,
                };
                assert(sep == is_separator(*app, self.selected as int));
                if sep && self.selected > 0 {
                    self.selected = self.selected - 1;
                }
            }
            None
        } else if code == KeyCode::Enter {
            if self.selected >= count {
                return None;
            }
            let ghost e = es[self.selected as int];
            assert(entry_shown(entries@[self.selected as int]) == e);
            let tracks: Vec<usize> = match &entries[self.selected] {
                LibraryEntry::SectionHeader(_) => {
                    return None;
                },
                LibraryEntry::Separator => {
                    return None;
                },
                LibraryEntry::PlaylistEntry { idx, .. } => {
                    if *idx < app.playlists.len() {
                        app.playlists[*idx].tracks.clone()
                    } else {
                        Vec::new()
                    }
                },
                LibraryEntry::AllTracks(_) => {
                    let n = app.library.tracks.len();
                    let mut v: Vec<usize> = Vec::new();
                    let mut i: usize = 0;
                    while i < n
                        invariant
                            i <= n,
                            n == app.library.tracks@.len(),
                            v@ == Seq::new(i as nat, |x: int| x as usize),
                        decreases n - i,
                    {
                        v.push(i);
                        assert(v@ =~= Seq::new((i + 1) as nat, |x: int| x as usize));
                        i += 1;
                    }
                    v
                },
                LibraryEntry::FavoriteDir(name) => Self::tracks_in_dir_named(app, name.as_str()),
                LibraryEntry::Album { name, artist } => app.library.get_tracks_by_album(name.as_str(), artist.as_str()),
            };
            if tracks.len() > 0 {
                Some(AppAction::AddToQueue(tracks))
            } else {
                None
            }
        } else if key_is_home(code) {
            self.selected = 0;
            self.scroll_offset = 0;
            None
        } else if key_is_end(code) {
            self.selected = count - 1;
            None
        } else {
            None
        }
    }

    /// Indices of the tracks in a directory called `name`.
    fn tracks_in_dir_named(app: &App, name: &str) -> (r: Vec<usize>)
        ensures
            r@ == indices_where(app.library.tracks@, named_dir(name@), app.library.tracks@.len() as int),
    {
        let ghost lib = app.library.tracks@;
        let mut r: Vec<usize> = Vec::new();
        let mut i: usize = 0;
        while i < app.library.tracks.len()
            invariant
                i <= lib.len(),
                lib == app.library.tracks@,
                r@ == indices_where(lib, named_dir(name@), i as int),
            decreases lib.len() - i,
        {
            let hit = match path_parent(app.library.tracks[i].path.as_str()) {
                Some(parent) => match path_file_name(parent.as_str()) {
                    Some(d) => str_eq(d.as_str(), name),
                    None => false,
                },
                None => false,
            };
            assert(hit == (dir_name_of(lib[i as int]) == Some(name@)));
            if hit {
                r.push(i);
            }
            i += 1;
        }
        r
    }

    pub open spec fn after_scroll(self, up: bool, count: nat) -> LibraryPane {
        if count == 0 {
            self
        } else {
            LibraryPane { scroll_offset: notch(self.scroll_offset, up, count), selected: notch(self.selected, up, count), ..self }
        }
    }

    /// A click selects the row under it; the wheel scrolls.
    pub fn handle_mouse(&mut self, event: MouseEvent, area: Rect, app: &App) -> (r: Option<AppAction>)
        ensures
            r is None,
            ({
                let count = library_entries(*app).len();
                match event.kind {
                    MouseKind::Down => *final(self) == (match clicked(area, event.column, event.row, old(self).scroll_offset, count) {
                        Some(c) => LibraryPane { selected: c, ..*old(self) },
                        None => *old(self),
                    }),
                    MouseKind::ScrollDown => *final(self) == old(self).after_scroll(false, count),
                    MouseKind::ScrollUp => *final(self) == old(self).after_scroll(true, count),
                    _ => *final(self) == *old(self),
                }
            }),
    {
        let count = Self::build_entries(app).len();
        match event.kind {
            MouseKind::Down => {
                if let Some(c) = clicked_exec(area, event.column, event.row, self.scroll_offset, count) {
                    self.selected = c;
                }
                None
            },
            MouseKind::ScrollDown => self.handle_scroll(false, app),
            MouseKind::ScrollUp => self.handle_scroll(true, app),
            _ => None,
        }
    }

    /// One wheel notch: view and selection move by three within the list.
    pub fn handle_scroll(&mut self, up: bool, app: &App) -> (r: Option<AppAction>)
        ensures
            r is None,
            *final(self) == old(self).after_scroll(up, library_entries(*app).len()),
    {
        let count = Self::build_entries(app).len();
        if count == 0 {
            return None;
        }
        self.scroll_offset = notch_exec(self.scroll_offset, up, count);
        self.selected = notch_exec(self.selected, up, count);
        None
    }
}

} // verus!
