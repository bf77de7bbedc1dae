//! Properties that span several operations: what one call undoes, what a
//! sequence of calls keeps, and what no input can make happen.

use vstd::prelude::*;
use crate::geometry::{LayoutAreas, PaneHit, Rect, spec_layout_areas, sat_sub, min_int};
use crate::input::{KeyCode, KeyEvent, MouseEvent, MouseKind};
use crate::keys::{key_post, Link};
use crate::paths::{spec_extension, spec_file_name, spec_first_component, spec_parent, spec_strip_prefix};
use crate::scanner::{in_scan_order, scan_lt, scan_sorted};
use crate::session::PlayerCommand;
use crate::state::{PlayState, RepeatMode};
use crate::strings::{first_index_of, seq_contains, spec_lowercase, spec_trim};
use crate::keys::search_post;
use crate::library::{
    Track, artist_listing, artist_set, by_artist, has_untagged_artist, indices_where, unknown_artist,
    album_set, by_album, filed_artist, format_count, format_set, format_key, by_format, format_listing,
    subdir_set, subdir_of, search_result, query_pred, is_extension_query, in_dir,
};
use crate::order::{lex_lt, lemma_lex_asymmetric, lemma_lex_irreflexive, lemma_sorted_of_set, sorted_of, strictly_sorted};
use crate::list_pane::ListPane;
use crate::mouse::{mouse_post, focus_actions, pointer_post, wheel_post, HoverTarget, hover_target, library_rows, double_click, press_post, library_click_post, seek_target};
use crate::player::{Debouncer, PlaybackClock};
use crate::session::{
    App, AppAction, Effect, action_post, remove_post, current_after_remove, playlist_post, with_track, delete_post,
    volume_post, clamp_volume, remap_indices, playing_entry, queued_with, library_swap_post, lost_paths, moved_index, last_with_path, seek_post, clamp_seek,
};
use crate::persist::string_views;
use crate::state::VOLUME_STEP;
use crate::ui::{Ui, skip_splash, SPLASH_FADE_OUT_AT_MS, SPLASH_END_MS, PlaylistModalMode};

verus! {

/// Removing a queue entry other than the playing one leaves the same track
/// playing.
pub proof fn lemma_remove_keeps_current_track(a: App, b: App, idx: usize, eff: Seq<Effect>)
    requires
        a.wf(),
        action_post(a, AppAction::RemoveFromQueue(idx), b, eff),
        idx < a.queue.tracks@.len(),
        a.queue.current_index is Some,
        a.queue.current_index->0 != idx,
    ensures
        b.queue.current_index is Some,
        b.queue.tracks@[b.queue.current_index->0 as int] == a.queue.tracks@[a.queue.current_index->0 as int],
{
    reveal(remove_post);
    let c = a.queue.current_index->0;
    assert(a.queue.tracks@.len() >= 2);
    if idx < c {
        assert(b.queue.tracks@[c - 1] == a.queue.tracks@.remove(idx as int)[c - 1]);
    } else {
        assert(b.queue.tracks@[c as int] == a.queue.tracks@.remove(idx as int)[c as int]);
    }
}

/// Adding tracks to the queue does not interrupt playback: no command goes
/// to the audio engine, the playback state is left as it was, the track
/// that was playing stays in the queue as its current entry, and every
/// added track is queued after it.
pub proof fn lemma_queueing_keeps_playback(a: App, b: App, v: Vec<usize>, eff: Seq<Effect>)
    requires
        action_post(a, AppAction::AddToQueue(v), b, eff),
    ensures
        eff.len() == 0,
        b.playback == a.playback,
        b.playlists@ == a.playlists@,
        playing_entry(a) matches Some(t) ==> {
            &&& b.queue.current_index == Some(0usize)
            &&& b.queue.tracks@[0] == t
            &&& forall|k: int| 0 <= k < v@.len() ==> b.queue.tracks@[k + 1] == #[trigger] v@[k]
        },
        forall|k: int| 0 <= k < v@.len() ==> b.queue.tracks@.contains(#[trigger] v@[k]),
{
    reveal(crate::session::replace_queue_post);
    let q = queued_with(a, v@);
    assert forall|k: int| 0 <= k < v@.len() implies b.queue.tracks@.contains(#[trigger] v@[k]) by {
        if playing_entry(a) is Some {
            assert(q[k + 1] == v@[k]);
        } else {
            assert(q[k] == v@[k]);
        }
    }
}

/// Adding a track to a playlist a second time changes nothing: the first
/// add leaves it there and the second finds it.
pub proof fn lemma_add_to_playlist_idempotent(a: App, b: App, c: App, p: usize, t: usize, e1: Seq<Effect>, e2: Seq<Effect>)
    requires
        action_post(a, AppAction::AddToPlaylist { playlist_idx: p, track_idx: t }, b, e1),
        action_post(b, AppAction::AddToPlaylist { playlist_idx: p, track_idx: t }, c, e2),
    ensures
        c.playlists@.len() == b.playlists@.len(),
        forall|k: int| 0 <= k < b.playlists@.len() ==> (#[trigger] c.playlists@[k]).tracks@ == b.playlists@[k].tracks@
            && c.playlists@[k].name == b.playlists@[k].name,
        p < b.playlists@.len() ==> b.playlists@[p as int].tracks@.contains(t),
{
    reveal(playlist_post);
    if p < a.playlists@.len() {
        let old_tracks = a.playlists@[p as int].tracks@;
        if !old_tracks.contains(t) {
            assert(old_tracks.push(t)[old_tracks.len() as int] == t);
        }
        assert(b.playlists@[p as int].tracks@.contains(t));
        assert(with_track(b, p as int, t) == b.playlists@[p as int].tracks@);
    }
}

/// Deleting the playlist the modal has selected, with `d`, leaves the
/// modal's selection on a playlist that still exists.
pub proof fn lemma_delete_keeps_modal_selection(o: Ui, f: Ui, app: App, app2: App, actions: Seq<AppAction>, eff: Seq<Effect>)
    requires
        crate::keys::list_post(o, app, crate::input::KeyCode::Char('d'), f, actions),
        app.playlists@.len() > 0,
        o.playlist_modal_selected < app.playlists@.len(),
        action_post(app, actions[0], app2, eff),
    ensures
        app2.playlists@.len() > 0 ==> f.playlist_modal_selected < app2.playlists@.len(),
{
    reveal(delete_post);
}

/// Volume up then down, or down then up, comes back to the same volume
/// away from the ends of the range.
pub proof fn lemma_volume_steps_undo(a: App, b: App, c: App, e1: Seq<Effect>, e2: Seq<Effect>, up_first: bool)
    requires
        a.wf(),
        up_first ==> a.playback.volume + VOLUME_STEP <= 100,
        !up_first ==> a.playback.volume >= VOLUME_STEP,
        action_post(a, if up_first { AppAction::VolumeUp } else { AppAction::VolumeDown }, b, e1),
        action_post(b, if up_first { AppAction::VolumeDown } else { AppAction::VolumeUp }, c, e2),
    ensures
        c.playback.volume == a.playback.volume,
{
    reveal(volume_post);
}

/// Seeking forward then back (or back then forward) returns to the same
/// position when neither step runs into an end of the track.
pub proof fn lemma_seek_steps_undo(a: App, b: App, c: App, e1: Seq<Effect>, e2: Seq<Effect>, forward_first: bool)
    requires
        forward_first ==> a.playback.position_ms + crate::session::SEEK_STEP_MS <= a.playback.duration_ms,
        !forward_first ==> a.playback.position_ms >= crate::session::SEEK_STEP_MS && a.playback.position_ms <= a.playback.duration_ms,
        action_post(a, if forward_first { AppAction::SeekForward } else { AppAction::SeekBackward }, b, e1),
        action_post(b, if forward_first { AppAction::SeekBackward } else { AppAction::SeekForward }, c, e2),
    ensures
        c.playback.position_ms == a.playback.position_ms,
{
    reveal(seek_post);
}

/// With every path in the library once, a track's path leads back to it.
proof fn lemma_unique_path_lookup(lib: Seq<Track>, i: int, n: int)
    requires
        forall|p: int, q: int| 0 <= p < q < lib.len() ==> lib[p].path@ != lib[q].path@,
        0 <= i < n <= lib.len(),
    ensures
        last_with_path(lib, lib[i].path@, n) == Some(i as usize),
    decreases n,
{
    if n - 1 != i {
        lemma_unique_path_lookup(lib, i, n - 1);
    }
}

/// Rescanning into the same library, every path in it once, keeps every
/// queue and playlist index as it was.
pub proof fn lemma_same_library_keeps_indices(lib: Seq<Track>, idxs: Seq<usize>)
    requires
        forall|p: int, q: int| 0 <= p < q < lib.len() ==> lib[p].path@ != lib[q].path@,
        forall|k: int| 0 <= k < idxs.len() ==> #[trigger] idxs[k] < lib.len(),
    ensures
        remap_indices(lib, lib, idxs) == idxs,
    decreases idxs.len(),
{
    if idxs.len() > 0 {
        let before = idxs.drop_last();
        assert forall|k: int| 0 <= k < before.len() implies #[trigger] before[k] < lib.len() by {
            assert(before[k] == idxs[k]);
        }
        lemma_same_library_keeps_indices(lib, before);
        lemma_unique_path_lookup(lib, idxs.last() as int, lib.len() as int);
        assert(moved_index(lib, lib, idxs.last()) == Some(idxs.last()));
        assert(before.push(idxs.last()) =~= idxs);
    }
}

/// A second keypress during the splash does not move it past where the
/// first put it.
pub proof fn lemma_skip_splash_twice(o: Ui, now: u64)
    ensures
        skip_splash(skip_splash(o, now), now) == skip_splash(o, now),
{
}

/// Skipping the splash lands exactly at the start of its fade-out, which
/// then still plays.
pub proof fn lemma_skip_splash_lands_on_fade_out(o: Ui, now: u64)
    requires
        o.show_splash,
        o.splash_start is Some,
        sat_sub(now as int, o.splash_start->0 as int) < SPLASH_FADE_OUT_AT_MS,
        now >= SPLASH_FADE_OUT_AT_MS,
    ensures
        skip_splash(o, now).show_splash,
        skip_splash(o, now).splash_start is Some,
        now - skip_splash(o, now).splash_start->0 == SPLASH_FADE_OUT_AT_MS,
        now - skip_splash(o, now).splash_start->0 < SPLASH_END_MS,
{
}

/// After a double-click, the next click cannot complete another one: three
/// fast clicks are one double-click and one single.
pub proof fn lemma_double_click_is_consumed(
    o: Ui,
    app: App,
    areas: LayoutAreas,
    x: u16,
    y: u16,
    now: u64,
    f: Ui,
    actions: Seq<AppAction>,
    x2: u16,
    y2: u16,
    later: u64,
)
    requires
        press_post(o, app, areas, x, y, now, f, actions),
        double_click(o.last_click, now, x, y),
    ensures
        !double_click(f.last_click, later, x2, y2),
{
}

/// The pointer only ever highlights a row that exists.
pub proof fn lemma_hover_only_real_rows(o: Ui, app: App, areas: LayoutAreas, x: u16, y: u16)
    ensures
        hover_target(o, app, areas, x, y) matches HoverTarget::Library(r) ==> r < library_rows(o, app),
        hover_target(o, app, areas, x, y) matches HoverTarget::Queue(r) ==> r < app.queue.tracks@.len(),
{
}

/// A wheel notch never scrolls a list past its last full screen, and never
/// moves the selection off the list.
pub proof fn lemma_wheel_stays_in_list(p: ListPane, up: bool, count: nat, viewport: nat)
    requires
        p.scroll_offset <= sat_sub(count as int, sat_sub(viewport as int, 2)),
        count > 0 ==> p.selected < count,
    ensures
        p.after_scroll(up, count, viewport).scroll_offset <= sat_sub(count as int, sat_sub(viewport as int, 2)),
        count > 0 ==> p.after_scroll(up, count, viewport).selected < count,
{
}

/// Keys in the search modal keep its selection on a result whenever there
/// are results.
pub proof fn lemma_search_selection_on_result(o: Ui, app: App, code: crate::input::KeyCode, f: Ui, actions: Seq<AppAction>)
    requires
        search_post(o, app, code, f, actions),
        o.search_modal_results@.len() > 0 ==> o.search_modal_selected < o.search_modal_results@.len(),
    ensures
        f.search_modal_results@.len() > 0 ==> f.search_modal_selected < f.search_modal_results@.len(),
{
}

/// A click on the progress gauge never seeks past the end of the track.
pub proof fn lemma_seek_target_within_track(dx: int, gauge_width: int, duration_ms: u64)
    requires
        0 <= dx < gauge_width,
    ensures
        seek_target(dx, gauge_width, duration_ms as int) <= duration_ms,
{
    assert(dx * duration_ms / gauge_width <= duration_ms) by (nonlinear_arith)
        requires
            0 <= dx < gauge_width,
            0 <= duration_ms,
    ;
    assert(0 <= dx * duration_ms / gauge_width) by (nonlinear_arith)
        requires
            0 <= dx < gauge_width,
            0 <= duration_ms,
    ;
}

/// Pausing and resuming at the same moment leaves the position where it
/// was.
pub proof fn lemma_pause_resume_keeps_position(c: PlaybackClock, now: u64)
    requires
        !c.paused,
    ensures
        ({
            let paused = PlaybackClock {
                paused: true,
                accumulated_ms: match c.play_start {
                    Some(s) => crate::player::sat_add_u64(c.accumulated_ms, crate::player::elapsed_since(now, s)),
                    None => c.accumulated_ms,
                },
                play_start: None,
                duration_ms: c.duration_ms,
            };
            let resumed = PlaybackClock { paused: false, play_start: Some(now), ..paused };
            resumed.position_at(now) == c.position_at(now)
        }),
{
}


/// A library without path `p` has no last track with that path.
proof fn lemma_absent_path(t: Seq<Track>, p: Seq<char>, n: int)
    requires
        0 <= n <= t.len(),
        forall|m: int| 0 <= m < t.len() ==> (#[trigger] t[m]).path@ != p,
    ensures
        last_with_path(t, p, n) is None,
    decreases n,
{
    if n > 0 {
        lemma_absent_path(t, p, n - 1);
    }
}

/// Every index of `idxs` whose track is gone from the new library has its
/// path among the lost ones.
proof fn lemma_lost_listed(old_lib: Seq<Track>, nl: Seq<Track>, idxs: Seq<usize>, j: int)
    requires
        0 <= j < idxs.len(),
        idxs[j] < old_lib.len(),
        moved_index(old_lib, nl, idxs[j]) is None,
    ensures
        lost_paths(old_lib, nl, idxs).contains(old_lib[idxs[j] as int].path@),
    decreases idxs.len(),
{
    let p = old_lib[idxs[j] as int].path@;
    let before = lost_paths(old_lib, nl, idxs.drop_last());
    if j == idxs.len() - 1 {
        assert(before.push(p)[before.len() as int] == p);
    } else {
        lemma_lost_listed(old_lib, nl, idxs.drop_last(), j);
        let w = choose|w: int| 0 <= w < before.len() && before[w] == p;
        if lost_paths(old_lib, nl, idxs) != before {
            assert(lost_paths(old_lib, nl, idxs)[w] == p);
        }
    }
}

/// A playlist entry whose file is absent when the library is rescanned (its
/// drive not mounted, say) is not lost: its path is kept among the
/// playlist's missing entries, to be saved and resolved again later.
pub proof fn lemma_rescan_keeps_absent_playlist_entries(a: App, nl: Seq<Track>, b: App, k: int, j: int)
    requires
        library_swap_post(a, nl, b),
        0 <= k < a.playlists@.len(),
        0 <= j < a.playlists@[k].tracks@.len(),
        a.playlists@[k].tracks@[j] < a.library.tracks@.len(),
        forall|m: int| 0 <= m < nl.len() ==>
            (#[trigger] nl[m]).path@ != a.library.tracks@[a.playlists@[k].tracks@[j] as int].path@,
    ensures
        string_views(b.playlists@[k].missing@).contains(a.library.tracks@[a.playlists@[k].tracks@[j] as int].path@),
{
    let idxs = a.playlists@[k].tracks@;
    let p = a.library.tracks@[idxs[j] as int].path@;
    lemma_absent_path(nl, p, nl.len() as int);
    lemma_lost_listed(a.library.tracks@, nl, idxs, j);
    let lost = lost_paths(a.library.tracks@, nl, idxs);
    let w = choose|w: int| 0 <= w < lost.len() && lost[w] == p;
    let kept = string_views(a.playlists@[k].missing@);
    assert(string_views(b.playlists@[k].missing@) == kept + lost);
    assert((kept + lost)[kept.len() + w] == p);
}


/// Index `i` is among the indices of the first `n` tracks satisfying
/// `pred` exactly when track `i` satisfies it.
proof fn lemma_indices_where_contains(t: Seq<Track>, pred: spec_fn(Track) -> bool, n: int, i: int)
    requires
        0 <= i < n <= t.len(),
        n <= usize::MAX,
    ensures
        indices_where(t, pred, n).contains(i as usize) <==> pred(t[i]),
    decreases n,
{
    let before = indices_where(t, pred, n - 1);
    if i < n - 1 {
        lemma_indices_where_contains(t, pred, n - 1, i);
    }
    lemma_indices_below(t, pred, n - 1);
    if pred(t[n - 1]) {
        let w = before.push((n - 1) as usize);
        if before.contains(i as usize) {
            let k = choose|k: int| 0 <= k < before.len() && before[k] == i as usize;
            assert(w[k] == i as usize);
        }
        if i == n - 1 {
            assert(w[before.len() as int] == i as usize);
        }
        if w.contains(i as usize) {
            let k = choose|k: int| 0 <= k < w.len() && w[k] == i as usize;
            if k < before.len() {
                assert(before[k] == i as usize);
            }
        }
    } else if before.contains(i as usize) && i == n - 1 {
        let k = choose|k: int| 0 <= k < before.len() && before[k] == i as usize;
        assert(before[k] < n - 1);
    }
}

/// Every index picked from the first `n` tracks is below `n`.
proof fn lemma_indices_below(t: Seq<Track>, pred: spec_fn(Track) -> bool, n: int)
    requires
        0 <= n <= usize::MAX,
    ensures
        forall|k: int| 0 <= k < indices_where(t, pred, n).len() ==> #[trigger] indices_where(t, pred, n)[k] < n,
    decreases n,
{
    if n > 0 {
        lemma_indices_below(t, pred, n - 1);
        let before = indices_where(t, pred, n - 1);
        let now = indices_where(t, pred, n);
        assert forall|k: int| 0 <= k < now.len() implies #[trigger] now[k] < n by {
            if k < before.len() {
                assert(now[k] == before[k]);
            }
        }
    }
}

/// The artist tags of a library are finitely many.
proof fn lemma_artist_set_finite(t: Seq<Track>, n: int)
    requires
        0 <= n <= t.len(),
    ensures
        artist_set(t, n).finite(),
    decreases n,
{
    if n == 0 {
        assert(artist_set(t, 0) =~= Set::empty());
    } else {
        lemma_artist_set_finite(t, n - 1);
        let a = t[n - 1].artist@;
        if a.len() > 0 {
            assert(artist_set(t, n) =~= artist_set(t, n - 1).insert(a));
        } else {
            assert(artist_set(t, n) =~= artist_set(t, n - 1));
        }
    }
}

/// Track `i` is in the track list of some row of the Artists tab.
pub open spec fn listed_under_an_artist(lib: Seq<Track>, i: int) -> bool {
    exists|k: int| 0 <= k < artist_listing(lib).len()
        && #[trigger] indices_where(lib, by_artist(artist_listing(lib)[k]), lib.len() as int).contains(i as usize)
}

/// The Artists tab partitions the library: it lists no artist twice, every
/// listed artist has tracks, and every track is in the list of exactly one
/// listed artist, the untagged ones under the "Unknown Artist" heading —
/// provided no track is tagged with that heading's very name.
pub proof fn lemma_artist_lists_partition_the_library(lib: Seq<Track>)
    requires
        lib.len() <= usize::MAX,
        forall|i: int| 0 <= i < lib.len() ==> (#[trigger] lib[i]).artist@ != unknown_artist(),
    ensures
        ({
            let l = artist_listing(lib);
            let n = lib.len() as int;
            &&& forall|k1: int, k2: int| 0 <= k1 < k2 < l.len() ==> l[k1] != l[k2]
            &&& forall|k: int| 0 <= k < l.len() ==> indices_where(lib, by_artist(#[trigger] l[k]), n).len() > 0
            &&& forall|i: int| 0 <= i < n ==> #[trigger] listed_under_an_artist(lib, i)
            &&& forall|i: int, k1: int, k2: int| 0 <= i < n && 0 <= k1 < l.len() && 0 <= k2 < l.len()
                && #[trigger] indices_where(lib, by_artist(l[k1]), n).contains(i as usize)
                && #[trigger] indices_where(lib, by_artist(l[k2]), n).contains(i as usize) ==> k1 == k2
        }),
{
    let n = lib.len() as int;
    let named = artist_set(lib, n);
    lemma_artist_set_finite(lib, n);
    lemma_sorted_of_set(named);
    let q = sorted_of(named);
    let l = artist_listing(lib);
    assert forall|k: int| 0 <= k < l.len() implies (k < q.len() ==> l[k] == q[k] && named.contains(q[k]))
        && (k >= q.len() ==> l[k] == unknown_artist() && has_untagged_artist(lib, n)) by {
        if k < q.len() {
            assert(q.to_set().contains(q[k]));
            assert(named.contains(q[k]));
            let i = choose|i: int| 0 <= i < n && #[trigger] lib[i].artist@ == q[k];
            assert(lib[i].artist@ != unknown_artist());
        }
    }
    // Which heading a track belongs under.
    assert forall|i: int, k: int| 0 <= i < n && 0 <= k < l.len() implies
        #[trigger] by_artist(l[k])(lib[i]) <==> (if lib[i].artist@.len() == 0 { k == q.len() } else { k < q.len() && q[k] == lib[i].artist@ }) by {
    }
    assert forall|k1: int, k2: int| 0 <= k1 < k2 < l.len() implies l[k1] != l[k2] by {
        if k2 < q.len() {
            if l[k1] == l[k2] {
                lemma_lex_irreflexive(q[k1]);
            }
        }
    }
    assert forall|i: int| 0 <= i < n implies #[trigger] listed_under_an_artist(lib, i) by {
        if lib[i].artist@.len() == 0 {
            assert(has_untagged_artist(lib, n));
            let k = q.len() as int;
            assert(by_artist(l[k])(lib[i]));
            lemma_indices_where_contains(lib, by_artist(l[k]), n, i);
        } else {
            assert(named.contains(lib[i].artist@));
            assert(q.to_set().contains(lib[i].artist@));
            let k = choose|k: int| 0 <= k < q.len() && q[k] == lib[i].artist@;
            assert(by_artist(l[k])(lib[i]));
            lemma_indices_where_contains(lib, by_artist(l[k]), n, i);
        }
    }
    assert forall|i: int, k1: int, k2: int| 0 <= i < n && 0 <= k1 < l.len() && 0 <= k2 < l.len()
        && #[trigger] indices_where(lib, by_artist(l[k1]), n).contains(i as usize)
        && #[trigger] indices_where(lib, by_artist(l[k2]), n).contains(i as usize) implies k1 == k2 by {
        lemma_indices_where_contains(lib, by_artist(l[k1]), n, i);
        lemma_indices_where_contains(lib, by_artist(l[k2]), n, i);
        if lib[i].artist@.len() != 0 && k1 != k2 {
            if k1 < k2 {
                lemma_lex_irreflexive(q[k1]);
            } else {
                lemma_lex_irreflexive(q[k2]);
            }
        }
    }
    assert forall|k: int| 0 <= k < l.len() implies indices_where(lib, by_artist(#[trigger] l[k]), n).len() > 0 by {
        let i = if k < q.len() {
            choose|i: int| 0 <= i < n && #[trigger] lib[i].artist@ == q[k]
        } else {
            choose|i: int| 0 <= i < n && #[trigger] lib[i].artist@.len() == 0
        };
        assert(by_artist(l[k])(lib[i]));
        lemma_indices_where_contains(lib, by_artist(l[k]), n, i);
    }
}


/// Indices picked by `pred` from the first `n` tracks are as many as the
/// first `n` tracks whose format key is `e`, when `pred` picks exactly those.
proof fn lemma_format_count_is_list_len(t: Seq<Track>, e: Seq<char>, n: int)
    requires
        0 <= n <= t.len(),
        e.len() > 0,
    ensures
        format_count(t, e, n) == indices_where(t, by_format(e), n).len(),
    decreases n,
{
    if n > 0 {
        lemma_format_count_is_list_len(t, e, n - 1);
        assert((format_key(t[n - 1]) == e) == by_format(e)(t[n - 1]));
    }
}

/// A format that occurs among the first `n` tracks is counted at least once.
proof fn lemma_format_count_positive(t: Seq<Track>, e: Seq<char>, n: int, i: int)
    requires
        0 <= i < n <= t.len(),
        format_key(t[i]) == e,
    ensures
        format_count(t, e, n) >= 1,
    decreases n,
{
    if i < n - 1 {
        lemma_format_count_positive(t, e, n - 1, i);
    }
}

/// The Format tab's counts agree with its track lists: every listed format
/// is counted as many times as its track list is long, and at least once.
pub proof fn lemma_format_counts_match_track_lists(lib: Seq<Track>, e: Seq<char>)
    requires
        format_set(lib, lib.len() as int).contains(e),
    ensures
        format_count(lib, e, lib.len() as int) == indices_where(lib, by_format(e), lib.len() as int).len(),
        format_count(lib, e, lib.len() as int) >= 1,
{
    let n = lib.len() as int;
    let i = choose|i: int| 0 <= i < n && #[trigger] format_key(lib[i]) == e;
    lemma_format_count_is_list_len(lib, e, n);
    lemma_format_count_positive(lib, e, n, i);
}

/// The Albums tab's rows, each an album title with the artist it is filed
/// under, have non-empty and pairwise disjoint track lists, and every track
/// with an album tag is in the list of its own row; so two records sharing
/// a title under different artists are two rows with their own tracks.
pub proof fn lemma_album_lists_partition_the_tagged_tracks(lib: Seq<Track>)
    requires
        lib.len() <= usize::MAX,
    ensures
        ({
            let n = lib.len() as int;
            let rows = album_set(lib, n);
            &&& forall|p: (Seq<char>, Seq<char>)| #[trigger] rows.contains(p) ==> indices_where(lib, by_album(p.0, p.1), n).len() > 0
            &&& forall|i: int| 0 <= i < n && (#[trigger] lib[i]).album@.len() > 0 ==> {
                &&& rows.contains((lib[i].album@, filed_artist(lib[i])))
                &&& indices_where(lib, by_album(lib[i].album@, filed_artist(lib[i])), n).contains(i as usize)
            }
            &&& forall|p: (Seq<char>, Seq<char>), r: (Seq<char>, Seq<char>), i: int| 0 <= i < n && p != r
                && #[trigger] indices_where(lib, by_album(p.0, p.1), n).contains(i as usize)
                ==> !(#[trigger] indices_where(lib, by_album(r.0, r.1), n)).contains(i as usize)
        }),
{
    let n = lib.len() as int;
    let rows = album_set(lib, n);
    assert forall|p: (Seq<char>, Seq<char>)| #[trigger] rows.contains(p) implies indices_where(lib, by_album(p.0, p.1), n).len() > 0 by {
        let i = choose|i: int| 0 <= i < n && #[trigger] lib[i].album@ == p.0 && filed_artist(lib[i]) == p.1;
        lemma_indices_where_contains(lib, by_album(p.0, p.1), n, i);
    }
    assert forall|i: int| 0 <= i < n && (#[trigger] lib[i]).album@.len() > 0 implies {
        &&& rows.contains((lib[i].album@, filed_artist(lib[i])))
        &&& indices_where(lib, by_album(lib[i].album@, filed_artist(lib[i])), n).contains(i as usize)
    } by {
        lemma_indices_where_contains(lib, by_album(lib[i].album@, filed_artist(lib[i])), n, i);
    }
    assert forall|p: (Seq<char>, Seq<char>), r: (Seq<char>, Seq<char>), i: int| 0 <= i < n && p != r
        && #[trigger] indices_where(lib, by_album(p.0, p.1), n).contains(i as usize)
        implies !(#[trigger] indices_where(lib, by_album(r.0, r.1), n)).contains(i as usize) by {
        lemma_indices_where_contains(lib, by_album(p.0, p.1), n, i);
        lemma_indices_where_contains(lib, by_album(r.0, r.1), n, i);
    }
}


/// With no modal open, focus follows a click and never the pointer: a left
/// press on a pane other than the focused one asks first of all to focus
/// it, and no other mouse event asks to move the focus.
pub proof fn lemma_focus_follows_the_click(o: Ui, app: App, area: Rect, mouse: MouseEvent, now: u64, f: Ui, actions: Seq<AppAction>)
    requires
        mouse_post(o, app, area, mouse, now, f, actions),
        !o.show_search_modal,
        !o.show_about_modal,
        !o.show_help_modal,
        !o.show_playlist_modal,
    ensures
        ({
            let areas = spec_layout_areas(area, o.pane_widths, o.right_split);
            let hit = (PaneHit {
                library: areas.library.holds(mouse.column as int, mouse.row as int),
                playlist: areas.playlist.holds(mouse.column as int, mouse.row as int),
                lyrics: areas.lyrics.holds(mouse.column as int, mouse.row as int),
            }).spec_pane();
            mouse.kind == MouseKind::Down && hit is Some && hit->0 != app.focus ==>
                actions.len() >= 1 && actions[0] == AppAction::FocusPane(hit->0)
        }),
        mouse.kind != MouseKind::Down ==> forall|k: int| 0 <= k < actions.len() ==> !(#[trigger] actions[k] is FocusPane),
{
    reveal(mouse_post);
    let areas = spec_layout_areas(area, o.pane_widths, o.right_split);
    let x = mouse.column;
    let y = mouse.row;
    let focus = focus_actions(app, areas, mouse);
    let p = choose|p: Ui| #[trigger] pointer_post(o, app, areas, x, y, p) && {
        if p.dragging_border is Some && (mouse.kind == MouseKind::Drag || mouse.kind == MouseKind::Moved) {
            crate::mouse::dragged(p, areas, x, y, f) && actions == focus
        } else if p.dragging_border is Some && mouse.kind == MouseKind::Up {
            f == (Ui { dragging_border: None, ..p }) && actions == focus
        } else {
            let q = if p.dragging_border is Some { Ui { dragging_border: None, ..p } } else { p };
            let rest = actions.skip(focus.len() as int);
            &&& actions.len() >= focus.len() && actions.take(focus.len() as int) == focus
            &&& match mouse.kind {
                MouseKind::Down => match crate::mouse::border_hit(areas, x, y) {
                    Some(b) => f == (Ui { dragging_border: Some(b), ..q }) && rest.len() == 0,
                    None => press_post(q, app, areas, x, y, now, f, rest),
                },
                MouseKind::ScrollDown => wheel_post(q, app, areas, mouse, f, rest),
                MouseKind::ScrollUp => wheel_post(q, app, areas, mouse, f, rest),
                _ => f == q && rest.len() == 0,
            }
        }
    };
    if mouse.kind == MouseKind::Down && focus.len() == 1 {
        assert(actions.len() >= 1);
        assert(actions.take(1)[0] == actions[0]);
    }
    if mouse.kind != MouseKind::Down {
        assert(focus.len() == 0);
        assert(actions.skip(0) =~= actions);
        assert forall|k: int| 0 <= k < actions.len() implies !(#[trigger] actions[k] is FocusPane) by {
            if mouse.kind == MouseKind::ScrollDown || mouse.kind == MouseKind::ScrollUp {
                let q = if p.dragging_border is Some { Ui { dragging_border: None, ..p } } else { p };
                if wheel_post(q, app, areas, mouse, f, actions) && areas.playlist.holds(x as int, y as int)
                    && !areas.library.holds(x as int, y as int) && actions.len() == 1 {
                    assert(actions[0] is SetQueueSelection);
                }
            }
        }
    }
}


/// The counts of the first `n` tracks under each format of `fs`, added up.
pub open spec fn counts_total(lib: Seq<Track>, fs: Seq<Seq<char>>, n: int) -> int
    decreases fs.len(),
{
    if fs.len() == 0 {
        0
    } else {
        counts_total(lib, fs.drop_last(), n) + format_count(lib, fs.last(), n)
    }
}

/// How many of the first `n` tracks have a format (a non-empty, lowercased
/// file extension).
pub open spec fn tracks_with_format(lib: Seq<Track>, n: int) -> int
    decreases n,
{
    if n <= 0 {
        0
    } else {
        tracks_with_format(lib, n - 1) + if format_key(lib[n - 1]).len() > 0 { 1int } else { 0int }
    }
}

/// How many times `x` occurs in `fs`.
spec fn occurrences(fs: Seq<Seq<char>>, x: Seq<char>) -> int
    decreases fs.len(),
{
    if fs.len() == 0 {
        0
    } else {
        occurrences(fs.drop_last(), x) + if fs.last() == x { 1int } else { 0int }
    }
}

proof fn lemma_counts_total_step(lib: Seq<Track>, fs: Seq<Seq<char>>, m: int)
    requires
        m > 0,
    ensures
        counts_total(lib, fs, m) == counts_total(lib, fs, m - 1) + occurrences(fs, format_key(lib[m - 1])),
    decreases fs.len(),
{
    if fs.len() > 0 {
        lemma_counts_total_step(lib, fs.drop_last(), m);
    }
}

proof fn lemma_counts_total_empty(lib: Seq<Track>, fs: Seq<Seq<char>>)
    ensures
        counts_total(lib, fs, 0) == 0,
    decreases fs.len(),
{
    if fs.len() > 0 {
        lemma_counts_total_empty(lib, fs.drop_last());
    }
}

proof fn lemma_occurrences_distinct(fs: Seq<Seq<char>>, x: Seq<char>)
    requires
        strictly_sorted(fs),
    ensures
        occurrences(fs, x) == if fs.contains(x) { 1int } else { 0int },
    decreases fs.len(),
{
    if fs.len() > 0 {
        let p = fs.drop_last();
        assert(strictly_sorted(p)) by {
            assert forall|i: int, j: int| 0 <= i < j < p.len() implies lex_lt(#[trigger] p[i], #[trigger] p[j]) by {
                assert(p[i] == fs[i] && p[j] == fs[j]);
            }
        }
        lemma_occurrences_distinct(p, x);
        if p.contains(x) {
            let k = choose|k: int| 0 <= k < p.len() && p[k] == x;
            assert(fs[k] == x);
            if fs.last() == x {
                assert(lex_lt(fs[k], fs[fs.len() - 1]));
                lemma_lex_irreflexive(x);
            }
        } else if fs.contains(x) {
            let k = choose|k: int| 0 <= k < fs.len() && fs[k] == x;
            if k < fs.len() - 1 {
                assert(p[k] == x);
            }
        }
        if fs.last() == x {
            assert(fs[fs.len() - 1] == x);
        }
    }
}

/// The formats of a library are finitely many.
proof fn lemma_format_set_finite(t: Seq<Track>, n: int)
    requires
        0 <= n <= t.len(),
    ensures
        format_set(t, n).finite(),
    decreases n,
{
    if n == 0 {
        assert(format_set(t, 0) =~= Set::empty());
    } else {
        lemma_format_set_finite(t, n - 1);
        let e = format_key(t[n - 1]);
        if e.len() > 0 {
            assert(format_set(t, n) =~= format_set(t, n - 1).insert(e));
        } else {
            assert(format_set(t, n) =~= format_set(t, n - 1));
        }
    }
}

/// Counting the first `m` tracks under the listed formats counts each
/// track with a format once.
proof fn lemma_counts_total_prefix(lib: Seq<Track>, fs: Seq<Seq<char>>, m: int)
    requires
        0 <= m <= lib.len(),
        strictly_sorted(fs),
        fs.to_set() == format_set(lib, lib.len() as int),
    ensures
        counts_total(lib, fs, m) == tracks_with_format(lib, m),
    decreases m,
{
    let n = lib.len() as int;
    if m == 0 {
        lemma_counts_total_empty(lib, fs);
    } else {
        lemma_counts_total_prefix(lib, fs, m - 1);
        let e = format_key(lib[m - 1]);
        lemma_counts_total_step(lib, fs, m);
        lemma_occurrences_distinct(fs, e);
        if e.len() > 0 {
            assert(format_set(lib, n).contains(e));
            assert(fs.to_set().contains(e));
        } else {
            assert(!format_set(lib, n).contains(e));
            assert(!fs.to_set().contains(e));
        }
    }
}

/// The Format tab's counts add up to the number of tracks that have a
/// format: every such track is counted under exactly one format.
pub proof fn lemma_format_counts_add_up(lib: Seq<Track>)
    ensures
        counts_total(lib, format_listing(lib), lib.len() as int) == tracks_with_format(lib, lib.len() as int),
{
    let n = lib.len() as int;
    lemma_format_set_finite(lib, n);
    lemma_sorted_of_set(format_set(lib, n));
    let fs = format_listing(lib);
    lemma_counts_total_prefix(lib, fs, n);
}


/// A directory's subfolder listing holds exactly the folders directly
/// under it that hold tracks somewhere below: `c` is listed for `dir` when
/// and only when some track's folder lies below `dir` (not `dir` itself)
/// and `c` is the first component of that folder's path relative to `dir`.
/// So for a track at `dir/A/B/x`, the listing of `dir` holds `A`.
pub proof fn lemma_subfolders_are_direct_children(lib: Seq<Track>, dir: Seq<char>, c: Seq<char>)
    ensures
        subdir_set(lib, dir, lib.len() as int).contains(c) <==> exists|k: int| 0 <= k < lib.len() && {
            &&& #[trigger] spec_parent(lib[k].path@) matches Some(p)
            &&& p != dir
            &&& spec_strip_prefix(p, dir) matches Some(rel)
            &&& spec_first_component(rel) == Some(c)
        },
{
    let n = lib.len() as int;
    if subdir_set(lib, dir, n).contains(c) {
        let k = choose|k: int| 0 <= k < n && #[trigger] subdir_of(lib[k], dir) == Some(c);
        assert(spec_parent(lib[k].path@) is Some);
    }
    if exists|k: int| 0 <= k < lib.len() && {
        &&& #[trigger] spec_parent(lib[k].path@) matches Some(p)
        &&& p != dir
        &&& spec_strip_prefix(p, dir) matches Some(rel)
        &&& spec_first_component(rel) == Some(c)
    } {
        let k = choose|k: int| 0 <= k < lib.len() && {
            &&& #[trigger] spec_parent(lib[k].path@) matches Some(p)
            &&& p != dir
            &&& spec_strip_prefix(p, dir) matches Some(rel)
            &&& spec_first_component(rel) == Some(c)
        };
        assert(subdir_of(lib[k], dir) == Some(c));
    }
}

/// The position of the first `:` in `name + ":" + v`, when `name` has none.
proof fn lemma_first_colon(name: Seq<char>, v: Seq<char>)
    requires
        forall|j: int| 0 <= j < name.len() ==> name[j] != ':',
    ensures
        first_index_of(name + ":"@ + v, ':') == Some(name.len() as int),
{
    let q = name + ":"@ + v;
    let c = name.len() as int;
    reveal_strlit(":");
    assert(q[c] == ':');
    assert forall|j: int| 0 <= j < c implies q[j] != ':' by {
        assert(q[j] == name[j]);
    }
    let w = choose|i: int| 0 <= i < q.len() && q[i] == ':' && forall|j: int| 0 <= j < i ==> q[j] != ':';
    if w < c {
        assert(q[w] == name[w]);
    }
}

/// A field search `name:value` searches the field `name` names, and only
/// it: with `name` trimmed and lowercased reading "title", "artist",
/// "album" or "genre" and the trimmed, lowercased value `w` not empty,
/// the hits are exactly the tracks whose lowercased title (artist, album,
/// genre) contains `w`, in library order.
pub proof fn lemma_field_search_reads_its_field(lib: Seq<Track>, name: Seq<char>, v: Seq<char>)
    requires
        forall|j: int| 0 <= j < name.len() ==> name[j] != ':',
        !(name.len() >= 2 && name[0] == '*' && name[1] == '.'),
        spec_lowercase(spec_trim(v)).len() > 0,
    ensures
        ({
            let q = name + ":"@ + v;
            let w = spec_lowercase(spec_trim(v));
            let field = spec_lowercase(spec_trim(name));
            let n = lib.len() as int;
            &&& field == "title"@ ==> search_result(lib, q)
                == indices_where(lib, |t: Track| seq_contains(spec_lowercase(t.title@), w), n)
            &&& field == "artist"@ ==> search_result(lib, q)
                == indices_where(lib, |t: Track| seq_contains(spec_lowercase(t.artist@), w), n)
            &&& field == "album"@ ==> search_result(lib, q)
                == indices_where(lib, |t: Track| seq_contains(spec_lowercase(t.album@), w), n)
            &&& field == "genre"@ ==> search_result(lib, q)
                == indices_where(lib, |t: Track| seq_contains(spec_lowercase(t.genre@), w), n)
        }),
{
    let q = name + ":"@ + v;
    let c = name.len() as int;
    let w = spec_lowercase(spec_trim(v));
    let field = spec_lowercase(spec_trim(name));
    reveal_strlit(":");
    reveal_strlit("title");
    reveal_strlit("artist");
    reveal_strlit("album");
    reveal_strlit("genre");
    lemma_first_colon(name, v);
    assert(q.subrange(0, c) =~= name);
    assert(q.subrange(c + 1, q.len() as int) =~= v);
    assert(q.len() > 0);
    if name.len() >= 2 {
        assert(q[0] == name[0] && q[1] == name[1]);
    } else if name.len() == 1 {
        assert(q[1] == ':');
    } else {
        assert(q[0] == ':');
    }
    assert(!is_extension_query(q));
    let n = lib.len() as int;
    assert("title"@ != "artist"@) by { assert("title"@[0] != "artist"@[0]); }
    assert("title"@ != "album"@) by { assert("title"@[0] != "album"@[0]); }
    assert("title"@ != "genre"@) by { assert("title"@[0] != "genre"@[0]); }
    assert("album"@ != "artist"@) by { assert("album"@[1] != "artist"@[1]); }
    assert("album"@ != "genre"@) by { assert("album"@[0] != "genre"@[0]); }
    assert("artist"@ != "genre"@) by { assert("artist"@[0] != "genre"@[0]); }
    if field == "title"@ {
        assert(query_pred(q) =~= |t: Track| seq_contains(spec_lowercase(t.title@), w));
    }
    if field == "artist"@ {
        assert(query_pred(q) =~= |t: Track| seq_contains(spec_lowercase(t.artist@), w));
    }
    if field == "album"@ {
        assert(query_pred(q) =~= |t: Track| seq_contains(spec_lowercase(t.album@), w));
    }
    if field == "genre"@ {
        assert(query_pred(q) =~= |t: Track| seq_contains(spec_lowercase(t.genre@), w));
    }
}

/// "Previous track", early in a track (three seconds or less in), moves one
/// entry back through the queue and starts it; from the first entry it
/// wraps round to the last with repeat-all on, and stays on the first
/// otherwise.
pub proof fn lemma_previous_moves_back(a: App, b: App, eff: Seq<Effect>, c: usize)
    requires
        a.wf(),
        action_post(a, AppAction::PrevTrack, b, eff),
        a.queue.current_index == Some(c),
        a.playback.position_ms <= 3000,
    ensures
        ({
            let n = a.queue.tracks@.len() as int;
            let p: int = if c > 0 { c - 1 } else if a.playback.repeat == RepeatMode::All { n - 1 } else { 0 };
            &&& b.queue.current_index == Some(p as usize)
            &&& b.playback.state == PlayState::Playing
            &&& b.playback.position_ms == 0
            &&& eff == seq![Effect::Player(PlayerCommand::Play(a.library.tracks@[a.queue.tracks@[p] as int].path))]
        }),
{
    reveal(crate::session::prev_post);
}

/// Outside any modal, chord, resize mode or search typing, the right arrow
/// asks to seek forward and the left arrow to seek back; and carrying that
/// out never moves playback the wrong way: right never lowers the position
/// (short of the track's end it raises it), left never raises it (past the
/// start it lowers it); each moves by five seconds, stopping at the track's
/// ends.
pub proof fn lemma_arrow_keys_seek_their_way(
    o: Ui,
    app: App,
    key: KeyEvent,
    f: Ui,
    actions: Seq<AppAction>,
    link: Option<Link>,
    b: App,
    eff: Seq<Effect>,
)
    requires
        key_post(o, app, key, f, actions, link),
        key.code == KeyCode::Right || key.code == KeyCode::Left,
        !o.show_about_modal,
        !o.show_help_modal,
        !o.show_playlist_modal,
        !o.show_search_modal,
        !app.search_mode,
        !o.chord_pending,
        !o.resize_mode,
        actions.len() > 0 ==> action_post(app, actions[0], b, eff),
    ensures
        key.code == KeyCode::Right ==> actions == seq![AppAction::SeekForward],
        key.code == KeyCode::Left ==> actions == seq![AppAction::SeekBackward],
        f == o,
        key.code == KeyCode::Right && app.playback.position_ms <= app.playback.duration_ms ==>
            b.playback.position_ms >= app.playback.position_ms,
        key.code == KeyCode::Right && app.playback.position_ms < app.playback.duration_ms ==>
            b.playback.position_ms > app.playback.position_ms,
        key.code == KeyCode::Left ==> b.playback.position_ms <= app.playback.position_ms,
        key.code == KeyCode::Left && app.playback.position_ms > 0 ==> b.playback.position_ms < app.playback.position_ms,
        key.code == KeyCode::Right && app.playback.position_ms <= app.playback.duration_ms ==>
            b.playback.position_ms == min_int(app.playback.position_ms + 5000, app.playback.duration_ms as int),
        key.code == KeyCode::Left && app.playback.position_ms <= app.playback.duration_ms ==>
            b.playback.position_ms == (if app.playback.position_ms >= 5000 { app.playback.position_ms - 5000 } else { 0 }),
{
    reveal(crate::keys::key_post);
    reveal(seek_post);
}

/// A list ordered by the scan order is ascending by album artist in Rust's
/// string order; within an album artist by album, then by track number
/// (untagged numbers first), then by title.
pub proof fn lemma_scan_order_is_ascending(r: Seq<Track>, ids: Seq<usize>)
    requires
        scan_sorted(r, ids),
    ensures
        in_scan_order(r),
{
    assert forall|i: int, j: int| 0 <= i < j < r.len() implies {
        let x = #[trigger] r[i];
        let y = #[trigger] r[j];
        &&& !lex_lt(y.album_artist@, x.album_artist@)
        &&& x.album_artist@ == y.album_artist@ ==> !lex_lt(y.album@, x.album@)
        &&& x.album_artist@ == y.album_artist@ && x.album@ == y.album@ ==> match (y.track_number, x.track_number) {
            (None, Some(_)) => false,
            (Some(p), Some(q)) => p >= q,
            _ => true,
        }
        &&& x.album_artist@ == y.album_artist@ && x.album@ == y.album@ && x.track_number == y.track_number
            ==> !lex_lt(y.title@, x.title@)
    } by {
        let x = r[i];
        let y = r[j];
        assert(scan_lt(x, ids[i] as int, y, ids[j] as int));
        lemma_lex_asymmetric(x.album_artist@, y.album_artist@);
        lemma_lex_asymmetric(x.album@, y.album@);
        lemma_lex_asymmetric(x.title@, y.title@);
        lemma_lex_irreflexive(x.album_artist@);
        lemma_lex_irreflexive(x.album@);
        lemma_lex_irreflexive(x.title@);
    }
}


/// The single command that starts queue entry `e`'s track.
pub open spec fn plays_entry(a: App, e: int) -> Seq<Effect> {
    seq![Effect::Player(PlayerCommand::Play(a.library.tracks@[a.queue.tracks@[e] as int].path))]
}

/// "Next track" (or a track ending), with shuffle and repeat-one off, moves
/// one entry on through the queue and starts it; past the last entry it
/// wraps to the first with repeat-all on, and otherwise stops where it is.
/// With repeat-one on it replays the current entry, and with shuffle on it
/// starts some entry of the queue.
pub proof fn lemma_next_moves_forward(a: App, b: App, eff: Seq<Effect>, c: usize, finished: bool)
    requires
        a.wf(),
        action_post(a, if finished { AppAction::TrackFinished } else { AppAction::NextTrack }, b, eff),
        a.queue.current_index == Some(c),
    ensures
        ({
            let n = a.queue.tracks@.len() as int;
            &&& a.playback.repeat == RepeatMode::One ==> b.queue.current_index == Some(c)
                && b.playback.state == PlayState::Playing && b.playback.position_ms == 0 && eff == plays_entry(a, c as int)
            &&& a.playback.repeat != RepeatMode::One && a.playback.shuffle ==> exists|e: int| 0 <= e < n
                && b.queue.current_index == Some(e as usize) && b.playback.state == PlayState::Playing
                && #[trigger] plays_entry(a, e) == eff
            &&& a.playback.repeat != RepeatMode::One && !a.playback.shuffle && c + 1 < n ==>
                b.queue.current_index == Some((c + 1) as usize) && b.playback.state == PlayState::Playing
                && b.playback.position_ms == 0 && eff == plays_entry(a, c + 1)
            &&& a.playback.repeat == RepeatMode::All && !a.playback.shuffle && c + 1 == n ==>
                b.queue.current_index == Some(0usize) && b.playback.state == PlayState::Playing
                && b.playback.position_ms == 0 && eff == plays_entry(a, 0)
            &&& a.playback.repeat == RepeatMode::Off && !a.playback.shuffle && c + 1 == n ==>
                b.queue.current_index == Some(c) && b.playback.state == PlayState::Stopped && eff.len() == 0
        }),
{
    reveal(crate::session::next_post);
    let n = a.queue.tracks@.len() as int;
    if a.playback.repeat != RepeatMode::One && a.playback.shuffle {
        let e = choose|e: int| 0 <= e < n && b.queue.current_index == Some(e as usize)
            && crate::session::started(a, b, a.queue.tracks@[e] as int)
            && eff == seq![crate::session::play_effect(a, a.queue.tracks@[e] as int)];
        assert(plays_entry(a, e) == eff);
    }
}

/// "Previous track" more than three seconds into a track starts that same
/// track again from the beginning, without moving through the queue.
pub proof fn lemma_previous_restarts_late(a: App, b: App, eff: Seq<Effect>, c: usize)
    requires
        a.wf(),
        action_post(a, AppAction::PrevTrack, b, eff),
        a.queue.current_index == Some(c),
        a.playback.position_ms > 3000,
    ensures
        b.queue.current_index == Some(c),
        b.playback.position_ms == 0,
        b.playback.state == a.playback.state,
        eff == seq![Effect::Player(PlayerCommand::Play(a.library.tracks@[a.queue.tracks@[c as int] as int].path))],
{
    reveal(crate::session::prev_post);
}

/// Outside any modal, chord, resize mode or search typing, the playback
/// keys ask for their actions — space pause/resume, n the next track,
/// Shift+N the previous one, + and = louder, - quieter, q quit — and the
/// volume keys move the volume their own way: louder never lowers it (and
/// below full raises it), quieter never raises it (and above silence lowers
/// it), by five points within 0 to 100.
pub proof fn lemma_playback_keys(
    o: Ui,
    app: App,
    key: KeyEvent,
    f: Ui,
    actions: Seq<AppAction>,
    link: Option<Link>,
    b: App,
    eff: Seq<Effect>,
)
    requires
        key_post(o, app, key, f, actions, link),
        app.wf(),
        !o.show_about_modal,
        !o.show_help_modal,
        !o.show_playlist_modal,
        !o.show_search_modal,
        !app.search_mode,
        !o.chord_pending,
        !o.resize_mode,
        key.modifiers != crate::input::MOD_CONTROL,
        actions.len() > 0 ==> action_post(app, actions[0], b, eff),
    ensures
        key.code == KeyCode::Char(' ') ==> actions == seq![AppAction::PauseResume],
        key.code == KeyCode::Char('n') ==> actions == seq![AppAction::NextTrack],
        key.code == KeyCode::Char('N') && key.modifiers == crate::input::MOD_SHIFT ==> actions == seq![AppAction::PrevTrack],
        key.code == KeyCode::Char('q') ==> actions == seq![AppAction::Quit],
        key.code == KeyCode::Char('+') || key.code == KeyCode::Char('=') ==> actions == seq![AppAction::VolumeUp]
            && b.playback.volume >= app.playback.volume
            && (app.playback.volume < 100 ==> b.playback.volume > app.playback.volume),
        key.code == KeyCode::Char('-') ==> actions == seq![AppAction::VolumeDown]
            && b.playback.volume <= app.playback.volume
            && (app.playback.volume > 0 ==> b.playback.volume < app.playback.volume),
        key.code == KeyCode::Char('+') || key.code == KeyCode::Char('=') ==>
            b.playback.volume == min_int(app.playback.volume + 5, 100),
        key.code == KeyCode::Char('-') ==>
            b.playback.volume == (if app.playback.volume >= 5 { app.playback.volume - 5 } else { 0 }),
{
    reveal(crate::keys::key_post);
    reveal(volume_post);
}


/// A folder's track list holds exactly the tracks whose folder is that one.
pub proof fn lemma_folder_tracks_sit_directly_in_it(lib: Seq<Track>, dir: Seq<char>, i: int)
    requires
        0 <= i < lib.len() <= usize::MAX,
    ensures
        indices_where(lib, in_dir(dir), lib.len() as int).contains(i as usize)
            <==> spec_parent(lib[i].path@) == Some(dir),
{
    lemma_indices_where_contains(lib, in_dir(dir), lib.len() as int, i);
}

/// A query `*.e` finds exactly the tracks whose file extension, lowercased,
/// is `e` lowercased, in library order.
pub proof fn lemma_extension_search(lib: Seq<Track>, e: Seq<char>)
    ensures
        search_result(lib, "*."@ + e) == indices_where(lib, |t: Track| match spec_extension(t.path@) {
            Some(x) => spec_lowercase(x) == spec_lowercase(e),
            None => false,
        }, lib.len() as int),
{
    reveal_strlit("*.");
    let q = "*."@ + e;
    assert(q[0] == '*' && q[1] == '.');
    assert(q.subrange(2, q.len() as int) =~= e);
    assert(query_pred(q) =~= |t: Track| match spec_extension(t.path@) {
        Some(x) => spec_lowercase(x) == spec_lowercase(e),
        None => false,
    });
}

/// Free text (a non-empty query with no `:` that does not start with `*.`)
/// finds exactly the tracks whose title, artist, album, genre or file name,
/// lowercased, contains the lowercased query, in library order.
pub proof fn lemma_free_text_search(lib: Seq<Track>, q: Seq<char>)
    requires
        q.len() > 0,
        forall|j: int| 0 <= j < q.len() ==> q[j] != ':',
        !(q.len() >= 2 && q[0] == '*' && q[1] == '.'),
    ensures
        ({
            let w = spec_lowercase(q);
            search_result(lib, q) == indices_where(lib, |t: Track|
                seq_contains(spec_lowercase(t.title@), w) || seq_contains(spec_lowercase(t.artist@), w)
                || seq_contains(spec_lowercase(t.album@), w) || seq_contains(spec_lowercase(t.genre@), w)
                || match spec_file_name(t.path@) {
                    Some(f) => seq_contains(spec_lowercase(f), w),
                    None => false,
                }, lib.len() as int)
        }),
{
    assert(first_index_of(q, ':') is None);
    let w = spec_lowercase(q);
    assert(query_pred(q) =~= |t: Track|
        seq_contains(spec_lowercase(t.title@), w) || seq_contains(spec_lowercase(t.artist@), w)
        || seq_contains(spec_lowercase(t.album@), w) || seq_contains(spec_lowercase(t.genre@), w)
        || match spec_file_name(t.path@) {
            Some(f) => seq_contains(spec_lowercase(f), w),
            None => false,
        });
}

} // verus!
