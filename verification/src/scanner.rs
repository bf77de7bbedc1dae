//! What the scanner keeps and in which order: audio files by extension, and
//! the library sorted by album artist, album, track number and title.

use vstd::prelude::*;
use crate::library::Track;
use crate::order::{lex_lt, lemma_lex_transitive, lemma_lex_total, lemma_lex_irreflexive, lemma_lex_asymmetric, compare_strings};
use crate::strings::{chars_of, str_eq, to_lowercase, spec_lowercase};
use crate::paths::{spec_extension, spec_file_name, spec_file_stem, path_extension, path_file_name, path_file_stem};

verus! {

/// The file extensions the scanner considers, lowercase.
pub open spec fn audio_extension(e: Seq<char>) -> bool {
    e == "flac"@ || e == "mp3"@ || e == "m4a"@ || e == "ogg"@ || e == "wav"@ || e == "opus"@
        || e == "aac"@ || e == "wma"@
}

/// The file name starts with `._`, the mark of a macOS resource fork.
pub open spec fn is_resource_fork(name: Seq<char>) -> bool {
    name.len() >= 2 && name[0] == '.' && name[1] == '_'
}

/// A file worth probing: not a resource fork, with an audio extension.
pub open spec fn spec_audio_candidate(p: Seq<char>) -> bool {
    &&& !(match spec_file_name(p) { Some(n) => is_resource_fork(n), None => false })
    &&& match spec_extension(p) {
        Some(e) => audio_extension(spec_lowercase(e)),
        None => false,
    }
}

/// Whether the scanner should try to decode the file at `path`.
pub fn is_audio_candidate(path: &str) -> (r: bool)
    ensures
        r == spec_audio_candidate(path@),
{
    match path_file_name(path) {
        Some(name) => {
            let c = chars_of(name.as_str());
            if c.len() >= 2 && c[0] == '.' && c[1] == '_' {
                return false;
            }
        },
        None => {},
    }
    match path_extension(path) {
        Some(e) => {
            let l = to_lowercase(e.as_str());
            let s = l.as_str();
            str_eq(s, "flac") || str_eq(s, "mp3") || str_eq(s, "m4a") || str_eq(s, "ogg")
                || str_eq(s, "wav") || str_eq(s, "opus") || str_eq(s, "aac") || str_eq(s, "wma")
        },
        None => false,
    }
}

/// The tags read from a file, empty where the file has none.
pub struct Tags {
    pub title: String,
    pub artist: String,
    pub album: String,
    pub album_artist: String,
    pub genre: String,
    pub track_number: Option<u32>,
    pub lyrics: Option<String>,
}

/// The title a track is listed under: its title tag, else the file stem,
/// else "Unknown".
pub open spec fn listed_title(path: Seq<char>, title: Seq<char>) -> Seq<char> {
    if title.len() > 0 {
        title
    } else {
        match spec_file_stem(path) {
            Some(s) => s,
            None => "Unknown"@,
        }
    }
}

impl Track {
    /// Builds a track from what was read from the file at `path`.
    pub fn from_tags(path: String, tags: Tags, duration_ms: u64, bitrate: Option<u32>) -> (t: Track)
        ensures
            t.path@ == path@,
            t.title@ == listed_title(path@, tags.title@),
            t.artist@ == tags.artist@,
            t.album@ == tags.album@,
            t.album_artist@ == tags.album_artist@,
            t.genre@ == tags.genre@,
            t.track_number == tags.track_number,
            t.lyrics == tags.lyrics,
            t.duration_ms == duration_ms,
            t.bitrate == bitrate,
    {
        let title = if tags.title.as_str().is_empty() {
            match path_file_stem(path.as_str()) {
                Some(s) => s,
                None => String::from_str("Unknown"),
            }
        } else {
            tags.title
        };
        Track {
            path,
            title,
            artist: tags.artist,
            album: tags.album,
            album_artist: tags.album_artist,
            genre: tags.genre,
            track_number: tags.track_number,
            duration_ms,
            bitrate,
            lyrics: tags.lyrics,
        }
    }
}

/// Track numbers sort with untagged first, then numerically.
pub open spec fn number_lt(a: Option<u32>, b: Option<u32>) -> bool {
    match (a, b) {
        (None, Some(_)) => true,
        (Some(x), Some(y)) => x < y,
        _ => false,
    }
}

/// The scan order: album artist, album, track number, title, and finally
/// the position the scanner found the file at, which makes the sort stable.
pub open spec fn scan_lt(a: Track, ia: int, b: Track, ib: int) -> bool {
    if a.album_artist@ != b.album_artist@ {
        lex_lt(a.album_artist@, b.album_artist@)
    } else if a.album@ != b.album@ {
        lex_lt(a.album@, b.album@)
    } else if a.track_number != b.track_number {
        number_lt(a.track_number, b.track_number)
    } else if a.title@ != b.title@ {
        lex_lt(a.title@, b.title@)
    } else {
        ia < ib
    }
}

pub proof fn lemma_scan_total(a: Track, ia: int, b: Track, ib: int)
    ensures
        ia != ib ==> scan_lt(a, ia, b, ib) || scan_lt(b, ib, a, ia),
        !(scan_lt(a, ia, b, ib) && scan_lt(b, ib, a, ia)),
{
    lemma_lex_total(a.album_artist@, b.album_artist@);
    lemma_lex_total(a.album@, b.album@);
    lemma_lex_total(a.title@, b.title@);
    lemma_lex_asymmetric(a.album_artist@, b.album_artist@);
    lemma_lex_asymmetric(a.album@, b.album@);
    lemma_lex_asymmetric(a.title@, b.title@);
}

pub proof fn lemma_scan_transitive(a: Track, ia: int, b: Track, ib: int, c: Track, ic: int)
    requires
        scan_lt(a, ia, b, ib),
        scan_lt(b, ib, c, ic),
    ensures
        scan_lt(a, ia, c, ic),
{
    lemma_lex_asymmetric(a.album_artist@, c.album_artist@);
    lemma_lex_asymmetric(a.album@, c.album@);
    lemma_lex_asymmetric(a.title@, c.title@);
    lemma_lex_irreflexive(a.album_artist@);
    lemma_lex_irreflexive(a.album@);
    lemma_lex_irreflexive(a.title@);
    if a.album_artist@ != b.album_artist@ && b.album_artist@ != c.album_artist@ {
        lemma_lex_transitive(a.album_artist@, b.album_artist@, c.album_artist@);
    } else if a.album_artist@ == b.album_artist@ && b.album_artist@ == c.album_artist@ {
        if a.album@ != b.album@ && b.album@ != c.album@ {
            lemma_lex_transitive(a.album@, b.album@, c.album@);
        } else if a.album@ == b.album@ && b.album@ == c.album@ {
            if a.track_number == b.track_number && b.track_number == c.track_number {
                if a.title@ != b.title@ && b.title@ != c.title@ {
                    lemma_lex_transitive(a.title@, b.title@, c.title@);
                }
            }
        }
    }
}

/// `ids` lists where each track of `out` stood in scan order, with
/// `out[k]` the track found at position `ids[k]`.
pub open spec fn scan_sorted(out: Seq<Track>, ids: Seq<usize>) -> bool {
    &&& out.len() == ids.len()
    &&& forall|i: int, j: int| 0 <= i < j < out.len() ==> scan_lt(#[trigger] out[i], ids[i] as int, #[trigger] out[j], ids[j] as int)
}

/// Whether `a` found at `ia` sorts before `b` found at `ib`.
fn scan_before(a: &Track, ia: usize, b: &Track, ib: usize) -> (r: bool)
    ensures
        r == scan_lt(*a, ia as int, *b, ib as int),
{
    proof {
        lemma_lex_irreflexive(a.album_artist@);
        lemma_lex_irreflexive(a.album@);
        lemma_lex_irreflexive(a.title@);
    }
    let c = compare_strings(a.album_artist.as_str(), b.album_artist.as_str());
    if c != 0 {
        return c < 0;
    }
    let c = compare_strings(a.album.as_str(), b.album.as_str());
    if c != 0 {
        return c < 0;
    }
    match (a.track_number, b.track_number) {
        (None, Some(_)) => { return true; },
        (Some(_), None) => { return false; },
        (Some(x), Some(y)) => {
            if x != y {
                return x < y;
            }
        },
        (None, None) => {},
    }
    let c = compare_strings(a.title.as_str(), b.title.as_str());
    if c != 0 {
        return c < 0;
    }
    ia < ib
}

/// `r` runs in ascending order of album artist, in Rust's string order;
/// within one album artist by album, then by track number (untagged
/// numbers first), then by title.
pub open spec fn in_scan_order(r: Seq<Track>) -> bool {
    forall|i: int, j: int| 0 <= i < j < r.len() ==> {
        let x = #[trigger] r[i];
        let y = #[trigger] r[j];
        &&& !lex_lt(y.album_artist@, x.album_artist@)
        &&& x.album_artist@ == y.album_artist@ ==> !lex_lt(y.album@, x.album@)
        &&& x.album_artist@ == y.album_artist@ && x.album@ == y.album@ ==> match (y.track_number, x.track_number) {
            (None, Some(_)) => false,
            (Some(p), Some(q)) => p >= q,
            _ => true,
        }
        &&& x.album_artist@ == y.album_artist@ && x.album@ == y.album@ && x.track_number == y.track_number
            ==> !lex_lt(y.title@, x.title@)
    }
}

/// Sorts the scanned tracks by album artist, album, track number and title,
/// stably: the result lists every track once, and `ids` witnesses where each
/// came from.
pub fn sort_tracks(tracks: Vec<Track>) -> (r: Vec<Track>)
    ensures
        in_scan_order(r@),
        exists|ids: Seq<usize>| #[trigger] scan_sorted(r@, ids)
            && ids.to_set() == Set::new(|m: usize| m < tracks@.len())
            && forall|k: int| 0 <= k < r@.len() ==> r@[k] == tracks@[#[trigger] ids[k] as int],
{
    let ghost orig = tracks@;
    let n = tracks.len();
    let mut tracks = tracks;
    let mut out: Vec<Track> = Vec::new();
    let mut ids: Vec<usize> = Vec::new();
    assert(ids@.to_set() =~= Set::new(|m: usize| n <= m < n));
    while tracks.len() > 0
        invariant
            n == orig.len(),
            tracks@ == orig.take(tracks@.len() as int),
            out@.len() + tracks@.len() == n,
            scan_sorted(out@, ids@),
            ids@.to_set() == Set::new(|m: usize| tracks@.len() <= m < n),
            forall|k: int| 0 <= k < out@.len() ==> out@[k] == orig[#[trigger] ids@[k] as int],
            forall|k: int| 0 <= k < ids@.len() ==> tracks@.len() <= #[trigger] ids@[k] < n,
        decreases tracks@.len(),
    {
        let t = tracks.pop().unwrap();
        let idx = tracks.len();
        assert(t == orig[idx as int]);
        let mut lo: usize = 0;
        let mut hi: usize = out.len();
        while lo < hi
            invariant
                lo <= hi <= out@.len(),
                out@.len() == ids@.len(),
                forall|k: int| 0 <= k < lo ==> scan_lt(#[trigger] out@[k], ids@[k] as int, t, idx as int),
                forall|k: int| hi <= k < out@.len() ==> scan_lt(t, idx as int, #[trigger] out@[k], ids@[k] as int),
                scan_sorted(out@, ids@),
                forall|k: int| 0 <= k < ids@.len() ==> idx < #[trigger] ids@[k],
            decreases hi - lo,
        {
            let mid = lo + (hi - lo) / 2;
            if scan_before(&out[mid], ids[mid], &t, idx) {
                assert forall|k: int| 0 <= k < mid + 1 implies scan_lt(#[trigger] out@[k], ids@[k] as int, t, idx as int) by {
                    if k < mid {
                        lemma_scan_transitive(out@[k], ids@[k] as int, out@[mid as int], ids@[mid as int] as int, t, idx as int);
                    }
                }
                lo = mid + 1;
            } else {
                proof {
                    lemma_scan_total(out@[mid as int], ids@[mid as int] as int, t, idx as int);
                }
                assert forall|k: int| mid <= k < out@.len() implies scan_lt(t, idx as int, #[trigger] out@[k], ids@[k] as int) by {
                    if k > mid {
                        lemma_scan_transitive(t, idx as int, out@[mid as int], ids@[mid as int] as int, out@[k], ids@[k] as int);
                    }
                }
                hi = mid;
            }
        }
        let ghost old_out = out@;
        let ghost old_ids = ids@;
        out.insert(lo, t);
        ids.insert(lo, idx);
        proof {
            assert(out@ =~= old_out.insert(lo as int, t));
            assert(ids@ =~= old_ids.insert(lo as int, idx));
            assert forall|i: int, j: int| 0 <= i < j < out@.len() implies scan_lt(#[trigger] out@[i], ids@[i] as int, #[trigger] out@[j], ids@[j] as int) by {
                if i < lo && j > lo {
                    lemma_scan_transitive(out@[i], ids@[i] as int, t, idx as int, out@[j], ids@[j] as int);
                }
            }
            assert(tracks@ =~= orig.take(tracks@.len() as int));
            assert(ids@.to_set() =~= Set::new(|m: usize| tracks@.len() <= m < n)) by {
                assert forall|m: usize| ids@.to_set().contains(m) implies tracks@.len() <= m < n by {
                    let k = choose|k: int| 0 <= k < ids@.len() && ids@[k] == m;
                    if k < lo {
                        assert(old_ids[k] == m);
                    } else if k > lo {
                        assert(old_ids[k - 1] == m);
                    }
                }
                assert forall|m: usize| tracks@.len() <= m < n implies ids@.to_set().contains(m) by {
                    if m == idx {
                        assert(ids@[lo as int] == m);
                    } else {
                        assert(old_ids.to_set().contains(m));
                        let k = choose|k: int| 0 <= k < old_ids.len() && old_ids[k] == m;
                        if k < lo {
                            assert(ids@[k] == m);
                        } else {
                            assert(ids@[k + 1] == m);
                        }
                    }
                }
            }
        }
    }
    assert(scan_sorted(out@, ids@));
    proof {
        crate::laws::lemma_scan_order_is_ascending(out@, ids@);
    }
    out
}

} // verus!
