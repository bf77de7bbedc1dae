//! The saved session: playlists by path, pane layout and labels, and the
//! cached tag entries, with the rules for restoring them safely.

use vstd::prelude::*;
use crate::library::{Library, Track};
use crate::state::Playlist;

verus! {

/// A playlist as saved: its name and the paths of its tracks.
#[derive(Debug, Clone)]
pub struct SavedPlaylist {
    pub name: String,
    pub tracks: Vec<String>,
}

/// Saved repeat label when the file has none.
pub fn default_repeat() -> (s: String)
    ensures
        s@ == "Off"@,
{
    String::from_str("Off")
}

/// Saved pane widths when the file has none.
pub fn default_pane_widths() -> (w: [u16; 3])
    ensures
        w == crate::geometry::DEFAULT_PANE_WIDTHS,
{
    crate::geometry::DEFAULT_PANE_WIDTHS
}

/// Saved info view label when the file has none.
pub fn default_info_view() -> (s: String)
    ensures
        s@ == "Clock"@,
{
    String::from_str("Clock")
}

/// Saved right-column split, in percent, when the file has none.
pub fn default_right_split() -> (v: u16)
    ensures
        v == 50,
{
    50
}

/// A saved right-column split, kept between 10 and 90 percent.
pub fn sane_right_split(v: u16) -> (r: u16)
    ensures
        r == (if v < 10 { 10 } else if v > 90 { 90 } else { v }),
{
    if v < 10 { 10 } else if v > 90 { 90 } else { v }
}

/// The library holds a track at path `p`.
pub open spec fn resolvable(lib: Seq<Track>, p: Seq<char>) -> bool {
    exists|k: int| 0 <= k < lib.len() && #[trigger] lib[k].path@ == p
}

/// The first library index at path `p`.
pub open spec fn first_index(lib: Seq<Track>, p: Seq<char>) -> usize {
    choose|k: usize| k < lib.len() && lib[k as int].path@ == p && forall|m: int| 0 <= m < k ==> lib[m].path@ != p
}

/// The saved paths the library has, each as its first index, in order.
pub open spec fn resolved(lib: Seq<Track>, paths: Seq<Seq<char>>) -> Seq<usize>
    decreases paths.len(),
{
    if paths.len() == 0 {
        Seq::empty()
    } else {
        let before = resolved(lib, paths.drop_last());
        if resolvable(lib, paths.last()) { before.push(first_index(lib, paths.last())) } else { before }
    }
}

/// The saved paths the library does not have, in order.
pub open spec fn unresolved(lib: Seq<Track>, paths: Seq<Seq<char>>) -> Seq<Seq<char>> {
    paths.filter(|p: Seq<char>| !resolvable(lib, p))
}

/// The saved paths the library has, in order.
pub open spec fn present(lib: Seq<Track>, paths: Seq<Seq<char>>) -> Seq<Seq<char>> {
    paths.filter(|p: Seq<char>| resolvable(lib, p))
}

pub open spec fn string_views(v: Seq<String>) -> Seq<Seq<char>> {
    v.map_values(|s: String| s@)
}

/// Restores one saved playlist against `lib`: paths the library has become
/// indices, the rest are kept as missing rather than dropped.
pub fn restore_playlist(saved: &SavedPlaylist, lib: &Library) -> (p: Playlist)
    ensures
        p.name@ == saved.name@,
        p.tracks@ == resolved(lib.tracks@, string_views(saved.tracks@)),
        string_views(p.missing@) == unresolved(lib.tracks@, string_views(saved.tracks@)),
        forall|k: int| 0 <= k < p.tracks@.len() ==> #[trigger] p.tracks@[k] < lib.tracks@.len(),
{
    let ghost paths = string_views(saved.tracks@);
    let mut tracks: Vec<usize> = Vec::new();
    let mut missing: Vec<String> = Vec::new();
    let mut i: usize = 0;
    while i < saved.tracks.len()
        invariant
            i <= saved.tracks@.len(),
            paths == string_views(saved.tracks@),
            tracks@ == resolved(lib.tracks@, paths.take(i as int)),
            string_views(missing@) == unresolved(lib.tracks@, paths.take(i as int)),
            forall|k: int| 0 <= k < tracks@.len() ==> #[trigger] tracks@[k] < lib.tracks@.len(),
        decreases saved.tracks@.len() - i,
    {
        let p = &saved.tracks[i];
        assert(paths.take(i + 1).drop_last() =~= paths.take(i as int));
        assert(paths.take(i + 1).last() == p@);
        reveal_with_fuel(Seq::filter, 1);
        match lib.path_to_index(p.as_str()) {
            Some(idx) => {
                assert(resolvable(lib.tracks@, p@));
                let ghost w = first_index(lib.tracks@, p@);
                assert(w == idx) by {
                    if w < idx {
                        assert(lib.tracks@[w as int].path@ == p@);
                    } else if w > idx {
                    }
                }
                tracks.push(idx);
            },
            None => {
                assert(!resolvable(lib.tracks@, p@));
                let ghost before = missing@;
                missing.push(p.clone());
                assert(string_views(missing@) =~= string_views(before).push(p@));
            },
        }
        i += 1;
    }
    assert(paths.take(paths.len() as int) =~= paths);
    Playlist { name: saved.name.clone(), tracks, missing }
}

/// Restores the saved playlists; if none were saved, an empty "Bookmarks"
/// playlist is created.
pub fn restore_playlists(saved: &Vec<SavedPlaylist>, lib: &Library) -> (r: Vec<Playlist>)
    ensures
        saved@.len() == 0 ==> r@.len() == 1 && r@[0].name@ == "Bookmarks"@ && r@[0].tracks@.len() == 0
            && r@[0].missing@.len() == 0,
        saved@.len() > 0 ==> r@.len() == saved@.len() && forall|k: int| 0 <= k < saved@.len() ==> {
            &&& (#[trigger] r@[k]).name@ == saved@[k].name@
            &&& r@[k].tracks@ == resolved(lib.tracks@, string_views(saved@[k].tracks@))
            &&& string_views(r@[k].missing@) == unresolved(lib.tracks@, string_views(saved@[k].tracks@))
        },
        forall|k: int, m: int| 0 <= k < r@.len() && 0 <= m < r@[k].tracks@.len() ==> #[trigger] r@[k].tracks@[m] < lib.tracks@.len(),
{
    let mut r: Vec<Playlist> = Vec::new();
    let mut i: usize = 0;
    while i < saved.len()
        invariant
            i <= saved@.len(),
            r@.len() == i,
            forall|k: int| 0 <= k < i ==> {
                &&& (#[trigger] r@[k]).name@ == saved@[k].name@
                &&& r@[k].tracks@ == resolved(lib.tracks@, string_views(saved@[k].tracks@))
                &&& string_views(r@[k].missing@) == unresolved(lib.tracks@, string_views(saved@[k].tracks@))
            },
            forall|k: int, m: int| 0 <= k < r@.len() && 0 <= m < r@[k].tracks@.len() ==> #[trigger] r@[k].tracks@[m] < lib.tracks@.len(),
        decreases saved@.len() - i,
    {
        r.push(restore_playlist(&saved[i], lib));
        i += 1;
    }
    if r.len() == 0 {
        r.push(Playlist::new("Bookmarks"));
    }
    r
}

/// The paths of the valid library indices, in order.
pub open spec fn index_paths(lib: Seq<Track>, idxs: Seq<usize>) -> Seq<Seq<char>>
    decreases idxs.len(),
{
    if idxs.len() == 0 {
        Seq::empty()
    } else {
        let before = index_paths(lib, idxs.drop_last());
        if idxs.last() < lib.len() { before.push(lib[idxs.last() as int].path@) } else { before }
    }
}

/// Saves one playlist: the paths of its tracks, then the paths it could not
/// resolve when it was restored, so a session without the music drive does
/// not prune them.
pub fn snapshot_playlist(pl: &Playlist, lib: &Library) -> (s: SavedPlaylist)
    ensures
        s.name@ == pl.name@,
        string_views(s.tracks@) == index_paths(lib.tracks@, pl.tracks@) + string_views(pl.missing@),
{
    let mut tracks: Vec<String> = Vec::new();
    let mut i: usize = 0;
    while i < pl.tracks.len()
        invariant
            i <= pl.tracks@.len(),
            string_views(tracks@) == index_paths(lib.tracks@, pl.tracks@.take(i as int)),
        decreases pl.tracks@.len() - i,
    {
        assert(pl.tracks@.take(i + 1).drop_last() =~= pl.tracks@.take(i as int));
        let idx = pl.tracks[i];
        if idx < lib.tracks.len() {
            let ghost before = tracks@;
            tracks.push(lib.tracks[idx].path.clone());
            assert(string_views(tracks@) =~= string_views(before).push(lib.tracks@[idx as int].path@));
        }
        i += 1;
    }
    assert(pl.tracks@.take(pl.tracks@.len() as int) =~= pl.tracks@);
    let ghost resolved_part = tracks@;
    let mut j: usize = 0;
    while j < pl.missing.len()
        invariant
            j <= pl.missing@.len(),
            string_views(tracks@) == index_paths(lib.tracks@, pl.tracks@) + string_views(pl.missing@.take(j as int)),
        decreases pl.missing@.len() - j,
    {
        let ghost before = tracks@;
        tracks.push(pl.missing[j].clone());
        assert(string_views(pl.missing@.take(j + 1)) =~= string_views(pl.missing@.take(j as int)).push(pl.missing@[j as int]@));
        assert(string_views(tracks@) =~= string_views(before).push(pl.missing@[j as int]@));
        j += 1;
    }
    assert(pl.missing@.take(pl.missing@.len() as int) =~= pl.missing@);
    SavedPlaylist { name: pl.name.clone(), tracks }
}

/// Saves every playlist.
pub fn snapshot_playlists(pls: &Vec<Playlist>, lib: &Library) -> (r: Vec<SavedPlaylist>)
    ensures
        r@.len() == pls@.len(),
        forall|k: int| 0 <= k < pls@.len() ==> {
            &&& (#[trigger] r@[k]).name@ == pls@[k].name@
            &&& string_views(r@[k].tracks@) == index_paths(lib.tracks@, pls@[k].tracks@) + string_views(pls@[k].missing@)
        },
{
    let mut r: Vec<SavedPlaylist> = Vec::new();
    let mut i: usize = 0;
    while i < pls.len()
        invariant
            i <= pls@.len(),
            r@.len() == i,
            forall|k: int| 0 <= k < i ==> {
                &&& (#[trigger] r@[k]).name@ == pls@[k].name@
                &&& string_views(r@[k].tracks@) == index_paths(lib.tracks@, pls@[k].tracks@) + string_views(pls@[k].missing@)
            },
        decreases pls@.len() - i,
    {
        r.push(snapshot_playlist(&pls[i], lib));
        i += 1;
    }
    r
}

/// Restoring a playlist and saving it again against the same library keeps
/// every saved path: first the ones the library has, then the missing ones,
/// each in its saved order — so nothing is lost and nothing is invented.
pub proof fn lemma_playlist_round_trip(lib: Seq<Track>, paths: Seq<Seq<char>>)
    requires
        lib.len() <= usize::MAX,
    ensures
        index_paths(lib, resolved(lib, paths)) == present(lib, paths),
        (present(lib, paths) + unresolved(lib, paths)).to_multiset() == paths.to_multiset(),
{
    lemma_resolved_paths(lib, paths);
    lemma_split_keeps_all(lib, paths);
}

#[verifier::rlimit(40)]
proof fn lemma_resolved_paths(lib: Seq<Track>, paths: Seq<Seq<char>>)
    requires
        lib.len() <= usize::MAX,
    ensures
        index_paths(lib, resolved(lib, paths)) == present(lib, paths),
    decreases paths.len(),
{
    reveal_with_fuel(Seq::filter, 1);
    if paths.len() > 0 {
        let init = paths.drop_last();
        let p = paths.last();
        lemma_resolved_paths(lib, init);
        if resolvable(lib, p) {
            let k0 = choose|k: int| 0 <= k < lib.len() && #[trigger] lib[k].path@ == p;
            lemma_first_index_exists(lib, p, k0);
            let w = first_index(lib, p);
            let r = resolved(lib, paths);
            assert(r == resolved(lib, init).push(w));
            assert(r.drop_last() =~= resolved(lib, init));
            assert(r.last() == w);
            assert(index_paths(lib, r) == index_paths(lib, resolved(lib, init)).push(lib[w as int].path@));
        }
    }
}

proof fn lemma_split_keeps_all(lib: Seq<Track>, paths: Seq<Seq<char>>)
    ensures
        (present(lib, paths) + unresolved(lib, paths)).to_multiset() == paths.to_multiset(),
    decreases paths.len(),
{
    if paths.len() == 0 {
        reveal_with_fuel(Seq::filter, 1);
        assert(present(lib, paths) + unresolved(lib, paths) =~= paths);
    } else {
        let init = paths.drop_last();
        lemma_split_keeps_all(lib, init);
        lemma_filter_split_multiset(lib, init, paths.last());
        assert(init.push(paths.last()) =~= paths);
    }
}

/// When some track has path `p`, the first such exists.
proof fn lemma_first_index_exists(lib: Seq<Track>, p: Seq<char>, k0: int)
    requires
        0 <= k0 < lib.len(),
        lib[k0].path@ == p,
        lib.len() <= usize::MAX,
    ensures
        ({
            let w = first_index(lib, p);
            w < lib.len() && lib[w as int].path@ == p
        }),
    decreases k0,
{
    if exists|m: int| 0 <= m < k0 && lib[m].path@ == p {
        let m = choose|m: int| 0 <= m < k0 && lib[m].path@ == p;
        lemma_first_index_exists(lib, p, m);
    } else {
        let k: usize = k0 as usize;
        assert(k < lib.len() && lib[k as int].path@ == p && forall|m: int| 0 <= m < k ==> lib[m].path@ != p);
    }
}

proof fn lemma_filter_split_multiset(lib: Seq<Track>, init: Seq<Seq<char>>, p: Seq<char>)
    requires
        (present(lib, init) + unresolved(lib, init)).to_multiset() == init.to_multiset(),
    ensures
        (present(lib, init.push(p)) + unresolved(lib, init.push(p))).to_multiset() == init.push(p).to_multiset(),
{
    broadcast use vstd::seq_lib::to_multiset_build;
    reveal_with_fuel(Seq::filter, 1);
    let pi = present(lib, init);
    let ui = unresolved(lib, init);
    assert(init.push(p).drop_last() =~= init);
    vstd::seq_lib::lemma_multiset_commutative(pi, ui);
    if resolvable(lib, p) {
        assert(present(lib, init.push(p)) == pi.push(p));
        assert(unresolved(lib, init.push(p)) == ui);
        vstd::seq_lib::lemma_multiset_commutative(pi.push(p), ui);
        assert(pi.push(p).to_multiset() =~= pi.to_multiset().insert(p));
        assert((pi.push(p) + ui).to_multiset() =~= (pi + ui).to_multiset().insert(p));
    } else {
        assert(present(lib, init.push(p)) == pi);
        assert(unresolved(lib, init.push(p)) == ui.push(p));
        assert(pi + ui.push(p) =~= (pi + ui).push(p));
    }
}

/// A cached tag entry: the track and the file identity it was read at.
pub struct CacheEntry {
    pub track: Track,
    /// Seconds since the epoch.
    pub mtime: u64,
    pub size: u64,
}

/// The cache format this build reads and writes.
pub const CACHE_VERSION: u32 = 1;

/// True when the cached entry still describes the file on disk: the same
/// modification time and the same size.
pub fn is_fresh(entry: &CacheEntry, stamp: (u64, u64)) -> (r: bool)
    ensures
        r == (entry.mtime == stamp.0 && entry.size == stamp.1),
{
    entry.mtime == stamp.0 && entry.size == stamp.1
}

/// A cache file is used only when written by this build's format.
pub fn accepts_cache_version(version: u32) -> (r: bool)
    ensures
        r == (version == CACHE_VERSION),
{
    version == CACHE_VERSION
}

} // verus!
