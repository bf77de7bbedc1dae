//! The music library: the tracks the scanner found, and the browse views
//! built from their tags — artists, albums, genres, formats, directories —
//! plus search.

use vstd::prelude::*;
use crate::order::{
    lex_lt, lemma_lex_irreflexive, strictly_sorted_pairs, pair_views, insert_sorted_unique_pair, lemma_insert_keeps_sorted, strictly_sorted, views, search_sorted,
    insert_sorted_unique, sorted_of, sorted_pairs_of, lemma_sorted_of, lemma_sorted_pairs_of,
};
use crate::strings::{str_eq, to_lowercase, spec_lowercase, spec_trim, trim, chars_of, chars_contain, seq_contains, find_char, first_index_of};
use crate::paths::{
    spec_extension, spec_parent, spec_strip_prefix, spec_first_component, spec_file_name, path_extension,
    path_parent, path_strip_prefix, path_first_component, path_file_name,
};

verus! {

/// One audio file and the tags read from it.
#[derive(Debug, Clone)]
pub struct Track {
    pub path: String,
    pub title: String,
    pub artist: String,
    pub album: String,
    pub album_artist: String,
    pub genre: String,
    pub track_number: Option<u32>,
    /// Length in milliseconds.
    pub duration_ms: u64,
    pub bitrate: Option<u32>,
    pub lyrics: Option<String>,
}

/// The heading that untagged artists are grouped under.
pub open spec fn unknown_artist() -> Seq<char> {
    "Unknown Artist"@
}

/// The artist an album is filed under: the album artist when tagged,
/// otherwise the track artist.
pub open spec fn filed_artist(t: Track) -> Seq<char> {
    if t.album_artist@.len() == 0 { t.artist@ } else { t.album_artist@ }
}

/// The lowercased extension of a track's file, if it has one.
pub open spec fn track_format(t: Track) -> Option<Seq<char>> {
    match spec_extension(t.path@) {
        Some(e) => Some(spec_lowercase(e)),
        None => None,
    }
}

/// The format a track is counted under: its lowercased extension, or empty.
pub open spec fn format_key(t: Track) -> Seq<char> {
    match track_format(t) {
        Some(e) => e,
        None => Seq::empty(),
    }
}

/// Indices `k < n` of the tracks satisfying `pred`, in order.
pub open spec fn indices_where(tracks: Seq<Track>, pred: spec_fn(Track) -> bool, n: int) -> Seq<usize>
    decreases n,
{
    if n <= 0 {
        Seq::empty()
    } else {
        let before = indices_where(tracks, pred, n - 1);
        if pred(tracks[n - 1]) { before.push((n - 1) as usize) } else { before }
    }
}

/// Every artist tag among the first `n` tracks, skipping empty ones.
pub open spec fn artist_set(tracks: Seq<Track>, n: int) -> Set<Seq<char>> {
    Set::new(|x: Seq<char>| x.len() > 0 && exists|k: int| 0 <= k < n && #[trigger] tracks[k].artist@ == x)
}

/// Every genre tag among the first `n` tracks, skipping empty ones.
pub open spec fn genre_set(tracks: Seq<Track>, n: int) -> Set<Seq<char>> {
    Set::new(|x: Seq<char>| x.len() > 0 && exists|k: int| 0 <= k < n && #[trigger] tracks[k].genre@ == x)
}

/// Every format among the first `n` tracks, skipping files without one.
pub open spec fn format_set(tracks: Seq<Track>, n: int) -> Set<Seq<char>> {
    Set::new(|x: Seq<char>| x.len() > 0 && exists|k: int| 0 <= k < n && #[trigger] format_key(tracks[k]) == x)
}

/// Selects the tracks by `artist`, "Unknown Artist" standing for untagged.
pub open spec fn by_artist(artist: Seq<char>) -> spec_fn(Track) -> bool {
    |t: Track| if artist == unknown_artist() { t.artist@.len() == 0 } else { t.artist@ == artist }
}

/// Selects the tracks of one album, told apart by the artist it is filed under.
pub open spec fn by_album(album: Seq<char>, artist: Seq<char>) -> spec_fn(Track) -> bool {
    |t: Track| t.album@ == album && filed_artist(t) == artist
}

pub open spec fn by_genre(genre: Seq<char>) -> spec_fn(Track) -> bool {
    |t: Track| t.genre@ == genre
}

pub open spec fn by_format(format: Seq<char>) -> spec_fn(Track) -> bool {
    |t: Track| track_format(t) == Some(format)
}

pub open spec fn in_dir(dir: Seq<char>) -> spec_fn(Track) -> bool {
    |t: Track| directly_in(t, dir)
}

/// The first `n` tracks include one without an artist tag.
pub open spec fn has_untagged_artist(tracks: Seq<Track>, n: int) -> bool {
    exists|k: int| 0 <= k < n && #[trigger] tracks[k].artist@.len() == 0
}

/// Every (album, filed artist) pair among the first `n` tracks with an album tag.
pub open spec fn album_set(tracks: Seq<Track>, n: int) -> Set<(Seq<char>, Seq<char>)> {
    Set::new(|p: (Seq<char>, Seq<char>)| p.0.len() > 0
        && exists|k: int| 0 <= k < n && #[trigger] tracks[k].album@ == p.0 && filed_artist(tracks[k]) == p.1)
}

/// How many of the first `n` tracks are counted under format `e`.
pub open spec fn format_count(tracks: Seq<Track>, e: Seq<char>, n: int) -> nat
    decreases n,
{
    if n <= 0 {
        0
    } else {
        format_count(tracks, e, n - 1) + if format_key(tracks[n - 1]) == e { 1nat } else { 0nat }
    }
}

/// The subdirectories of `dir` that hold (at any depth) the first `n` tracks:
/// the first component of each track's parent below `dir`.
pub open spec fn subdir_set(tracks: Seq<Track>, dir: Seq<char>, n: int) -> Set<Seq<char>> {
    Set::new(|c: Seq<char>| exists|k: int| 0 <= k < n && #[trigger] subdir_of(tracks[k], dir) == Some(c))
}

/// The subdirectory of `dir` that a track sits under, if it is below `dir`
/// but not directly in it.
pub open spec fn subdir_of(t: Track, dir: Seq<char>) -> Option<Seq<char>> {
    match spec_parent(t.path@) {
        Some(p) => if p == dir {
            None
        } else {
            match spec_strip_prefix(p, dir) {
                Some(rel) => spec_first_component(rel),
                None => None,
            }
        },
        None => None,
    }
}

/// The track sits directly in `dir`.
pub open spec fn directly_in(t: Track, dir: Seq<char>) -> bool {
    spec_parent(t.path@) == Some(dir)
}

/// Strictly sorted, and holding exactly the given set.
pub open spec fn sorted_listing(s: Seq<Seq<char>>, set: Set<Seq<char>>) -> bool {
    strictly_sorted(s) && s.to_set() == set
}

/// The rows of the Artists tab: the tagged artists in order, then
/// "Unknown Artist" if any track is untagged.
pub open spec fn artist_listing(lib: Seq<Track>) -> Seq<Seq<char>> {
    let n = lib.len() as int;
    if has_untagged_artist(lib, n) {
        sorted_of(artist_set(lib, n)).push(unknown_artist())
    } else {
        sorted_of(artist_set(lib, n))
    }
}

/// The rows of the Genre tab.
pub open spec fn genre_listing(lib: Seq<Track>) -> Seq<Seq<char>> {
    sorted_of(genre_set(lib, lib.len() as int))
}

/// The rows of the Format tab.
pub open spec fn format_listing(lib: Seq<Track>) -> Seq<Seq<char>> {
    sorted_of(format_set(lib, lib.len() as int))
}

/// The rows of the Albums tab: (album, filed artist) pairs in order.
pub open spec fn album_listing(lib: Seq<Track>) -> Seq<(Seq<char>, Seq<char>)> {
    sorted_pairs_of(album_set(lib, lib.len() as int))
}

/// How an album tag is shown: the tag, or "Unknown Album" when it is empty.
pub fn album_title(album: &str) -> (s: &str)
    ensures
        s@ == (if album@.len() == 0 { "Unknown Album"@ } else { album@ }),
{
    if album.is_empty() { "Unknown Album" } else { album }
}

impl Track {
    /// The track artist, or "Unknown Artist" when untagged.
    pub fn display_artist(&self) -> (s: &str)
        ensures
            s@ == (if self.artist@.len() == 0 { unknown_artist() } else { self.artist@ }),
    {
        if self.artist.as_str().is_empty() { "Unknown Artist" } else { self.artist.as_str() }
    }

    /// The album, or "Unknown Album" when untagged.
    pub fn display_album(&self) -> (s: &str)
        ensures
            s@ == (if self.album@.len() == 0 { "Unknown Album"@ } else { self.album@ }),
    {
        album_title(self.album.as_str())
    }

    /// The length as `m:ss`.
    pub fn format_duration(&self) -> (s: String)
        ensures
            s@ == crate::text::clock_text((self.duration_ms / 1000) as nat),
    {
        crate::text::format_clock(self.duration_ms / 1000)
    }
}

#[derive(Debug)]
pub struct Library {
    pub tracks: Vec<Track>,
}

impl Library {
    pub fn new() -> (l: Library)
        ensures
            l.tracks@.len() == 0,
    {
        Library { tracks: Vec::new() }
    }

    /// The artist column: every tagged artist in order, then "Unknown Artist"
    /// once if any track is untagged.
    pub fn get_artists(&self) -> (r: Vec<String>)
        ensures
            ({
                let n = self.tracks@.len() as int;
                let named = artist_set(self.tracks@, n);
                if has_untagged_artist(self.tracks@, n) {
                    r@.len() > 0 && r@.last()@ == unknown_artist()
                        && sorted_listing(views(r@.drop_last()), named)
                } else {
                    sorted_listing(views(r@), named)
                }
            }),
            views(r@) == artist_listing(self.tracks@),
    {
        let mut set: Vec<String> = Vec::new();
        let mut has_unknown = false;
        let mut i: usize = 0;
        assert(views(set@).to_set() =~= artist_set(self.tracks@, 0));
        while i < self.tracks.len()
            invariant
                i <= self.tracks@.len(),
                strictly_sorted(views(set@)),
                views(set@).to_set() == artist_set(self.tracks@, i as int),
                has_unknown == has_untagged_artist(self.tracks@, i as int),
            decreases self.tracks@.len() - i,
        {
            let t = &self.tracks[i];
            if t.artist.as_str().is_empty() {
                has_unknown = true;
                assert(self.tracks@[i as int].artist@.len() == 0);
                assert(artist_set(self.tracks@, i + 1) =~= artist_set(self.tracks@, i as int));
            } else {
                insert_sorted_unique(&mut set, t.artist.clone());
                assert(artist_set(self.tracks@, i + 1) =~= artist_set(self.tracks@, i as int).insert(t.artist@));
            }
            i += 1;
        }
        proof {
            lemma_sorted_of(views(set@));
        }
        if has_unknown {
            let ghost before = set@;
            set.push(String::from_str("Unknown Artist"));
            assert(set@.drop_last() =~= before);
            assert(views(set@) =~= views(before).push(unknown_artist()));
        }
        set
    }

    /// Every genre tag in order.
    pub fn get_genres(&self) -> (r: Vec<String>)
        ensures
            sorted_listing(views(r@), genre_set(self.tracks@, self.tracks@.len() as int)),
            views(r@) == genre_listing(self.tracks@),
    {
        let mut set: Vec<String> = Vec::new();
        let mut i: usize = 0;
        assert(views(set@).to_set() =~= genre_set(self.tracks@, 0));
        while i < self.tracks.len()
            invariant
                i <= self.tracks@.len(),
                strictly_sorted(views(set@)),
                views(set@).to_set() == genre_set(self.tracks@, i as int),
            decreases self.tracks@.len() - i,
        {
            let t = &self.tracks[i];
            if !t.genre.as_str().is_empty() {
                insert_sorted_unique(&mut set, t.genre.clone());
                assert(genre_set(self.tracks@, i + 1) =~= genre_set(self.tracks@, i as int).insert(t.genre@));
            } else {
                assert(genre_set(self.tracks@, i + 1) =~= genre_set(self.tracks@, i as int));
            }
            i += 1;
        }
        proof {
            lemma_sorted_of(views(set@));
        }
        set
    }

    /// Every (album, filed artist) pair in order, so two records that share
    /// a title stay two rows.
    pub fn get_albums(&self) -> (r: Vec<(String, String)>)
        ensures
            strictly_sorted_pairs(pair_views(r@)),
            pair_views(r@).to_set() == album_set(self.tracks@, self.tracks@.len() as int),
            pair_views(r@) == album_listing(self.tracks@),
    {
        let mut set: Vec<(String, String)> = Vec::new();
        let mut i: usize = 0;
        assert(pair_views(set@).to_set() =~= album_set(self.tracks@, 0));
        while i < self.tracks.len()
            invariant
                i <= self.tracks@.len(),
                strictly_sorted_pairs(pair_views(set@)),
                pair_views(set@).to_set() == album_set(self.tracks@, i as int),
            decreases self.tracks@.len() - i,
        {
            let t = &self.tracks[i];
            if !t.album.as_str().is_empty() {
                let a = self.album_artist_of(t);
                insert_sorted_unique_pair(&mut set, (t.album.clone(), a));
                assert(album_set(self.tracks@, i + 1) =~= album_set(self.tracks@, i as int).insert((t.album@, filed_artist(*t))));
            } else {
                assert(album_set(self.tracks@, i + 1) =~= album_set(self.tracks@, i as int));
            }
            i += 1;
        }
        proof {
            lemma_sorted_pairs_of(pair_views(set@));
        }
        set
    }

    /// The artist a track's album is filed under.
    pub fn album_artist_of(&self, t: &Track) -> (r: String)
        ensures
            r@ == filed_artist(*t),
    {
        if t.album_artist.as_str().is_empty() { t.artist.clone() } else { t.album_artist.clone() }
    }

    /// Indices of the tracks by `artist`; "Unknown Artist" selects the
    /// untagged ones.
    pub fn get_tracks_by_artist(&self, artist: &str) -> (r: Vec<usize>)
        ensures
            r@ == indices_where(self.tracks@, by_artist(artist@), self.tracks@.len() as int),
    {
        let unknown = str_eq(artist, "Unknown Artist");
        let mut r: Vec<usize> = Vec::new();
        let mut i: usize = 0;
        while i < self.tracks.len()
            invariant
                i <= self.tracks@.len(),
                unknown == (artist@ == unknown_artist()),
                r@ == indices_where(self.tracks@, by_artist(artist@), i as int),
            decreases self.tracks@.len() - i,
        {
            let t = &self.tracks[i];
            let hit = if unknown {
                t.artist.as_str().is_empty()
            } else {
                str_eq(t.artist.as_str(), artist)
            };
            if hit {
                r.push(i);
            }
            i += 1;
        }
        r
    }

    /// Indices of the tracks on `album` filed under `artist`, so two albums
    /// that share a title stay apart.
    pub fn get_tracks_by_album(&self, album: &str, artist: &str) -> (r: Vec<usize>)
        ensures
            r@ == indices_where(self.tracks@, by_album(album@, artist@), self.tracks@.len() as int),
    {
        let mut r: Vec<usize> = Vec::new();
        let mut i: usize = 0;
        while i < self.tracks.len()
            invariant
                i <= self.tracks@.len(),
                r@ == indices_where(self.tracks@, by_album(album@, artist@), i as int),
            decreases self.tracks@.len() - i,
        {
            let t = &self.tracks[i];
            if str_eq(t.album.as_str(), album) {
                let a = self.album_artist_of(t);
                if str_eq(a.as_str(), artist) {
                    r.push(i);
                }
            }
            i += 1;
        }
        r
    }

    /// Indices of the tracks tagged with `genre`.
    pub fn get_tracks_by_genre(&self, genre: &str) -> (r: Vec<usize>)
        ensures
            r@ == indices_where(self.tracks@, by_genre(genre@), self.tracks@.len() as int),
    {
        let mut r: Vec<usize> = Vec::new();
        let mut i: usize = 0;
        while i < self.tracks.len()
            invariant
                i <= self.tracks@.len(),
                r@ == indices_where(self.tracks@, by_genre(genre@), i as int),
            decreases self.tracks@.len() - i,
        {
            if str_eq(self.tracks[i].genre.as_str(), genre) {
                r.push(i);
            }
            i += 1;
        }
        r
    }

    /// The format a track is counted under.
    pub fn format_of(t: &Track) -> (r: Option<String>)
        ensures
            r matches Some(e) ==> track_format(*t) == Some(e@),
            r is None ==> track_format(*t) is None,
    {
        match path_extension(t.path.as_str()) {
            Some(e) => Some(to_lowercase(e.as_str())),
            None => None,
        }
    }

    /// Indices of the tracks whose lowercased extension is `format`.
    pub fn get_tracks_by_format(&self, format: &str) -> (r: Vec<usize>)
        ensures
            r@ == indices_where(self.tracks@, by_format(format@), self.tracks@.len() as int),
    {
        let mut r: Vec<usize> = Vec::new();
        let mut i: usize = 0;
        while i < self.tracks.len()
            invariant
                i <= self.tracks@.len(),
                r@ == indices_where(self.tracks@, by_format(format@), i as int),
            decreases self.tracks@.len() - i,
        {
            let hit = match Self::format_of(&self.tracks[i]) {
                Some(e) => str_eq(e.as_str(), format),
                None => false,
            };
            if hit {
                r.push(i);
            }
            i += 1;
        }
        r
    }

    /// Every format with how many tracks use it, in format order, in one pass.
    pub fn format_counts(&self) -> (r: Vec<(String, usize)>)
        ensures
            ({
                let n = self.tracks@.len() as int;
                let keys = r@.map_values(|p: (String, usize)| p.0@);
                &&& sorted_listing(keys, format_set(self.tracks@, n))
                &&& keys == format_listing(self.tracks@)
                &&& forall|k: int| 0 <= k < r@.len() ==> #[trigger] r@[k].1 == format_count(self.tracks@, r@[k].0@, n)
            }),
    {
        let mut keys: Vec<String> = Vec::new();
        let mut counts: Vec<usize> = Vec::new();
        let mut i: usize = 0;
        assert(views(keys@).to_set() =~= format_set(self.tracks@, 0));
        while i < self.tracks.len()
            invariant
                i <= self.tracks@.len(),
                keys@.len() == counts@.len(),
                strictly_sorted(views(keys@)),
                views(keys@).to_set() == format_set(self.tracks@, i as int),
                forall|k: int| 0 <= k < keys@.len() ==> #[trigger] counts@[k] == format_count(self.tracks@, keys@[k]@, i as int),
                forall|k: int| 0 <= k < keys@.len() ==> counts@[k] <= i,
            decreases self.tracks@.len() - i,
        {
            let ghost tr = self.tracks@[i as int];
            let e = match Self::format_of(&self.tracks[i]) {
                Some(e) => e,
                None => String::new(),
            };
            assert(e@ == format_key(tr));
            let ghost old_keys = keys@;
            let ghost old_counts = counts@;
            if !e.as_str().is_empty() {
                match search_sorted(&keys, e.as_str()) {
                    Ok(pos) => {
                        let c = counts[pos];
                        counts.set(pos, c + 1);
                        assert forall|k: int| 0 <= k < keys@.len() implies #[trigger] counts@[k] == format_count(self.tracks@, keys@[k]@, i + 1) by {
                            if k != pos {
                                assert(views(keys@)[k] != views(keys@)[pos as int]) by {
                                    lemma_lex_irreflexive(views(keys@)[k]);
                                }
                            }
                        }
                        assert(format_set(self.tracks@, i + 1) =~= format_set(self.tracks@, i as int).insert(e@));
                        assert(views(keys@).to_set().insert(e@) =~= views(keys@).to_set());
                    },
                    Err(pos) => {
                        proof {
                            lemma_insert_keeps_sorted(views(keys@), e@, pos as int);
                        }
                        keys.insert(pos, e);
                        counts.insert(pos, 1);
                        assert(views(keys@) =~= views(old_keys).insert(pos as int, format_key(tr)));
                        assert forall|k: int| 0 <= k < keys@.len() implies #[trigger] counts@[k] == format_count(self.tracks@, keys@[k]@, i + 1) by {
                            lemma_lex_irreflexive(format_key(tr));
                            if k < pos {
                                assert(keys@[k] == old_keys[k]);
                                assert(lex_lt(views(old_keys)[k], format_key(tr)));
                            } else if k > pos {
                                assert(keys@[k] == old_keys[k - 1]);
                                assert(lex_lt(format_key(tr), views(old_keys)[k - 1]));
                            } else {
                                assert(!views(old_keys).to_set().contains(format_key(tr))) by {
                                    if views(old_keys).to_set().contains(format_key(tr)) {
                                        let m = choose|m: int| 0 <= m < old_keys.len() && views(old_keys)[m] == format_key(tr);
                                        lemma_lex_irreflexive(format_key(tr));
                                    }
                                }
                                lemma_format_count_absent(self.tracks@, format_key(tr), i as int);
                            }
                        }
                        assert(format_set(self.tracks@, i + 1) =~= format_set(self.tracks@, i as int).insert(format_key(tr)));
                    },
                }
            } else {
                assert forall|k: int| 0 <= k < keys@.len() implies #[trigger] counts@[k] == format_count(self.tracks@, keys@[k]@, i + 1) by {
                    assert(views(keys@).to_set().contains(views(keys@)[k]));
                }
                assert(format_set(self.tracks@, i + 1) =~= format_set(self.tracks@, i as int));
            }
            i += 1;
        }
        let mut r: Vec<(String, usize)> = Vec::new();
        let mut j: usize = 0;
        let n = keys.len();
        while j < n
            invariant
                n == keys@.len(),
                keys@.len() == counts@.len(),
                j <= n,
                r@.len() == j,
                forall|k: int| 0 <= k < j ==> #[trigger] r@[k].0@ == keys@[k]@ && r@[k].1 == counts@[k],
            decreases n - j,
        {
            r.push((keys[j].clone(), counts[j]));
            j += 1;
        }
        assert(r@.map_values(|p: (String, usize)| p.0@) =~= views(keys@));
        proof {
            lemma_sorted_of(views(keys@));
        }
        r
    }

    /// Every format in use, in order.
    pub fn get_formats(&self) -> (r: Vec<String>)
        ensures
            sorted_listing(views(r@), format_set(self.tracks@, self.tracks@.len() as int)),
            views(r@) == format_listing(self.tracks@),
    {
        let counts = self.format_counts();
        let mut r: Vec<String> = Vec::new();
        let mut j: usize = 0;
        while j < counts.len()
            invariant
                j <= counts@.len(),
                r@.len() == j,
                forall|k: int| 0 <= k < j ==> #[trigger] r@[k]@ == counts@[k].0@,
            decreases counts@.len() - j,
        {
            r.push(counts[j].0.clone());
            j += 1;
        }
        assert(views(r@) =~= counts@.map_values(|p: (String, usize)| p.0@));
        proof {
            lemma_sorted_of(views(r@));
        }
        r
    }

    /// The subdirectories below `dir` (their first path component under it)
    /// and the tracks directly in `dir`.
    pub fn get_directory_entries(&self, dir: &str) -> (r: (Vec<String>, Vec<usize>))
        ensures
            sorted_listing(views(r.0@), subdir_set(self.tracks@, dir@, self.tracks@.len() as int)),
            r.1@ == indices_where(self.tracks@, in_dir(dir@), self.tracks@.len() as int),
    {
        let mut subdirs: Vec<String> = Vec::new();
        let mut tracks: Vec<usize> = Vec::new();
        let mut i: usize = 0;
        assert(views(subdirs@).to_set() =~= subdir_set(self.tracks@, dir@, 0));
        while i < self.tracks.len()
            invariant
                i <= self.tracks@.len(),
                strictly_sorted(views(subdirs@)),
                views(subdirs@).to_set() == subdir_set(self.tracks@, dir@, i as int),
                tracks@ == indices_where(self.tracks@, in_dir(dir@), i as int),
            decreases self.tracks@.len() - i,
        {
            let ghost tr = self.tracks@[i as int];
            let mut found: Option<String> = None;
            match path_parent(self.tracks[i].path.as_str()) {
                Some(parent) => {
                    if str_eq(parent.as_str(), dir) {
                        tracks.push(i);
                    } else {
                        match path_strip_prefix(parent.as_str(), dir) {
                            Some(rel) => {
                                found = path_first_component(rel.as_str());
                            },
                            None => {},
                        }
                    }
                },
                None => {},
            }
            assert(found matches Some(c) ==> subdir_of(tr, dir@) == Some(c@));
            assert(found is None ==> subdir_of(tr, dir@) is None);
            match found {
                Some(c) => {
                    insert_sorted_unique(&mut subdirs, c);
                    assert(subdir_set(self.tracks@, dir@, i + 1) =~= subdir_set(self.tracks@, dir@, i as int).insert(subdir_of(tr, dir@)->0));
                },
                None => {
                    assert(subdir_set(self.tracks@, dir@, i + 1) =~= subdir_set(self.tracks@, dir@, i as int));
                },
            }
            i += 1;
        }
        (subdirs, tracks)
    }

    /// The first track whose path is exactly `path`.
    pub fn path_to_index(&self, path: &str) -> (r: Option<usize>)
        ensures
            r matches Some(i) ==> i < self.tracks@.len() && self.tracks@[i as int].path@ == path@
                && forall|k: int| 0 <= k < i ==> #[trigger] self.tracks@[k].path@ != path@,
            r is None ==> forall|k: int| 0 <= k < self.tracks@.len() ==> #[trigger] self.tracks@[k].path@ != path@,
    {
        let mut i: usize = 0;
        while i < self.tracks.len()
            invariant
                i <= self.tracks@.len(),
                forall|k: int| 0 <= k < i ==> #[trigger] self.tracks@[k].path@ != path@,
            decreases self.tracks@.len() - i,
        {
            if str_eq(self.tracks[i].path.as_str(), path) {
                return Some(i);
            }
            i += 1;
        }
        None
    }
}

/// A track never counted under `e` so far contributes nothing to its count.
pub proof fn lemma_format_count_absent(tracks: Seq<Track>, e: Seq<char>, n: int)
    requires
        forall|k: int| 0 <= k < n ==> #[trigger] format_key(tracks[k]) != e,
        e.len() > 0,
    ensures
        format_count(tracks, e, n) == 0,
    decreases n,
{
    if n > 0 {
        lemma_format_count_absent(tracks, e, n - 1);
    }
}

/// Which tag a field-specific search (`artist:`, `album:`, `genre:`,
/// `title:`) looks in.
#[derive(Debug, Clone, Copy, PartialEq, Eq, Structural)]
pub enum SearchField {
    Artist,
    Album,
    Genre,
    Title,
}

pub open spec fn field_value(t: Track, f: SearchField) -> Seq<char> {
    match f {
        SearchField::Artist => t.artist@,
        SearchField::Album => t.album@,
        SearchField::Genre => t.genre@,
        SearchField::Title => t.title@,
    }
}

/// The field a lowercased, trimmed prefix names, if any.
pub open spec fn field_named(name: Seq<char>) -> Option<SearchField> {
    if name == "artist"@ {
        Some(SearchField::Artist)
    } else if name == "album"@ {
        Some(SearchField::Album)
    } else if name == "genre"@ {
        Some(SearchField::Genre)
    } else if name == "title"@ {
        Some(SearchField::Title)
    } else {
        None
    }
}

/// How a query is interpreted.
pub enum SearchMode {
    /// `*.ext`: tracks with that extension (lowercased).
    Extension(String),
    /// `field:value`: tracks whose field, lowercased, contains the value.
    Field(SearchField, String),
    /// Anything else: the lowercased query in title, artist, album, genre or
    /// file name.
    General(String),
}

pub open spec fn contains_lower(s: Seq<char>, q: Seq<char>) -> bool {
    seq_contains(spec_lowercase(s), q)
}

/// A general search hit: the lowercased query occurs in the lowercased
/// title, artist, album, genre or file name.
pub open spec fn general_hit(t: Track, q: Seq<char>) -> bool {
    contains_lower(t.title@, q) || contains_lower(t.artist@, q) || contains_lower(t.album@, q)
        || contains_lower(t.genre@, q) || match spec_file_name(t.path@) {
        Some(f) => contains_lower(f, q),
        None => false,
    }
}

pub open spec fn mode_pred(m: SearchMode) -> spec_fn(Track) -> bool {
    match m {
        SearchMode::Extension(e) => |t: Track| track_format(t) == Some(e@),
        SearchMode::Field(f, v) => |t: Track| contains_lower(field_value(t, f), v@),
        SearchMode::General(q) => |t: Track| general_hit(t, q@),
    }
}

/// The query starts with `*.`.
pub open spec fn is_extension_query(q: Seq<char>) -> bool {
    q.len() >= 2 && q[0] == '*' && q[1] == '.'
}

/// The field-specific reading of a query: split at its first `:`, the name
/// trimmed and lowercased must name a field and the value trimmed and
/// lowercased must not be empty.
pub open spec fn field_query(q: Seq<char>) -> Option<(SearchField, Seq<char>)> {
    match first_index_of(q, ':') {
        Some(c) => {
            let name = spec_lowercase(spec_trim(q.subrange(0, c)));
            let v = spec_lowercase(spec_trim(q.subrange(c + 1, q.len() as int)));
            if v.len() > 0 {
                match field_named(name) {
                    Some(f) => Some((f, v)),
                    None => None,
                }
            } else {
                None
            }
        },
        None => None,
    }
}

/// What a query selects, as a predicate on tracks.
pub open spec fn query_pred(q: Seq<char>) -> spec_fn(Track) -> bool {
    if is_extension_query(q) {
        |t: Track| track_format(t) == Some(spec_lowercase(q.subrange(2, q.len() as int)))
    } else {
        match field_query(q) {
            Some((f, v)) => |t: Track| contains_lower(field_value(t, f), v),
            None => |t: Track| general_hit(t, spec_lowercase(q)),
        }
    }
}

/// The characters of `v` from `lo` up to `hi`, as a string.
fn substring(v: &Vec<char>, lo: usize, hi: usize) -> (s: String)
    requires
        lo <= hi <= v@.len(),
    ensures
        s@ == v@.subrange(lo as int, hi as int),
{
    let mut part: Vec<char> = Vec::new();
    let mut i = lo;
    while i < hi
        invariant
            lo <= i <= hi <= v@.len(),
            part@ == v@.subrange(lo as int, i as int),
        decreases hi - i,
    {
        part.push(v[i]);
        assert(v@.subrange(lo as int, i + 1) =~= v@.subrange(lo as int, i as int).push(v@[i as int]));
        i += 1;
    }
    crate::strings::string_from_chars(part.as_slice())
}

fn field_from_name(name: &str) -> (r: Option<SearchField>)
    ensures
        r == field_named(name@),
{
    if str_eq(name, "artist") {
        Some(SearchField::Artist)
    } else if str_eq(name, "album") {
        Some(SearchField::Album)
    } else if str_eq(name, "genre") {
        Some(SearchField::Genre)
    } else if str_eq(name, "title") {
        Some(SearchField::Title)
    } else {
        None
    }
}

/// Lowercase `s` and report whether it contains `q`.
fn lower_contains(s: &str, q: &Vec<char>) -> (r: bool)
    ensures
        r == seq_contains(spec_lowercase(s@), q@),
{
    let l = to_lowercase(s);
    let lc = chars_of(l.as_str());
    chars_contain(&lc, q)
}

/// What a search for `q` finds: nothing for an empty query, otherwise the
/// tracks the query selects, in library order.
pub open spec fn search_result(lib: Seq<Track>, q: Seq<char>) -> Seq<usize> {
    if q.len() == 0 { Seq::empty() } else { indices_where(lib, query_pred(q), lib.len() as int) }
}

impl Library {
    /// Interprets a non-empty query: `*.ext`, `field:value`, or free text.
    pub fn search_mode(query: &str) -> (m: SearchMode)
        ensures
            mode_pred(m) == query_pred(query@),
    {
        let q = chars_of(query);
        if q.len() >= 2 && q[0] == '*' && q[1] == '.' {
            let rest = substring(&q, 2, q.len());
            let e = to_lowercase(rest.as_str());
            return SearchMode::Extension(e);
        }
        match find_char(&q, ':') {
            Some(c) => {
                proof {
                    let w = first_index_of(q@, ':');
                    assert(q@[c as int] == ':');
                    assert(w is Some);
                    let ci = w->0;
                    if ci < c {
                        assert(q@[ci] == ':');
                    } else if ci > c {
                    }
                    assert(ci == c);
                }
                let prefix = substring(&q, 0, c);
                let value = substring(&q, c + 1, q.len());
                let name = to_lowercase(trim(prefix.as_str()).as_str());
                let v = to_lowercase(trim(value.as_str()).as_str());
                if !v.as_str().is_empty() {
                    match field_from_name(name.as_str()) {
                        Some(f) => {
                            return SearchMode::Field(f, v);
                        },
                        None => {},
                    }
                }
            },
            None => {
                assert(first_index_of(q@, ':') is None);
            },
        }
        SearchMode::General(to_lowercase(query))
    }

    /// Whether a track is selected under `mode`.
    pub fn matches(t: &Track, mode: &SearchMode) -> (r: bool)
        ensures
            r == (mode_pred(*mode))(*t),
    {
        match mode {
            SearchMode::Extension(e) => match Self::format_of(t) {
                Some(f) => str_eq(f.as_str(), e.as_str()),
                None => false,
            },
            SearchMode::Field(f, v) => {
                let vc = chars_of(v.as_str());
                match f {
                    SearchField::Artist => lower_contains(t.artist.as_str(), &vc),
                    SearchField::Album => lower_contains(t.album.as_str(), &vc),
                    SearchField::Genre => lower_contains(t.genre.as_str(), &vc),
                    SearchField::Title => lower_contains(t.title.as_str(), &vc),
                }
            },
            SearchMode::General(q) => {
                let qc = chars_of(q.as_str());
                if lower_contains(t.title.as_str(), &qc) {
                    return true;
                }
                if lower_contains(t.artist.as_str(), &qc) {
                    return true;
                }
                if lower_contains(t.album.as_str(), &qc) {
                    return true;
                }
                if lower_contains(t.genre.as_str(), &qc) {
                    return true;
                }
                match path_file_name(t.path.as_str()) {
                    Some(f) => lower_contains(f.as_str(), &qc),
                    None => false,
                }
            },
        }
    }

    /// Search: nothing for an empty query; otherwise the indices, in library
    /// order, of the tracks the query selects (see `query_pred`).
    pub fn search(&self, query: &str) -> (r: Vec<usize>)
        ensures
            r@ == search_result(self.tracks@, query@),
            query@.len() == 0 ==> r@.len() == 0,
            query@.len() > 0 ==> r@ == indices_where(self.tracks@, query_pred(query@), self.tracks@.len() as int),
    {
        if query.is_empty() {
            return Vec::new();
        }
        let mode = Self::search_mode(query);
        let mut r: Vec<usize> = Vec::new();
        let mut i: usize = 0;
        while i < self.tracks.len()
            invariant
                i <= self.tracks@.len(),
                mode_pred(mode) == query_pred(query@),
                r@ == indices_where(self.tracks@, query_pred(query@), i as int),
            decreases self.tracks@.len() - i,
        {
            if Self::matches(&self.tracks[i], &mode) {
                r.push(i);
            }
            i += 1;
        }
        r
    }
}

} // verus!
