//! The player's session state and how each user or audio action changes it.
//! Work that leaves the process (audio output, rescanning) comes back as
//! effects for the caller to carry out.

use vstd::prelude::*;
use crate::state::{
    FocusedPane, InfoView, PlayState, PlaybackState, Playlist, QueueState, RepeatMode, SyncState, Tab,
    VOLUME_STEP,
};
use crate::library::{Library, Track};
use rand::Rng;

verus! {

/// Everything a user or the audio engine can ask the session to do.
#[derive(Debug, Clone)]
pub enum AppAction {
    Quit,
    PlayTrack(usize),
    PauseResume,
    NextTrack,
    PrevTrack,
    /// Percent; more than 100 is taken as 100.
    SetVolume(u32),
    VolumeUp,
    VolumeDown,
    /// Milliseconds; clamped to the track.
    Seek(u64),
    SeekForward,
    SeekBackward,
    ToggleShuffle,
    CycleRepeat,
    SwitchTab(Tab),
    FocusNext,
    FocusPrev,
    FocusPane(FocusedPane),
    /// Queues these library indices after the track that is playing (or on
    /// their own when nothing is), without interrupting playback.
    AddToQueue(Vec<usize>),
    ClearQueue,
    RemoveFromQueue(usize),
    PlayQueueIndex(usize),
    UpdatePosition { position_ms: u64, duration_ms: u64 },
    TrackFinished,
    SetQueueSelection(usize),
    AddToPlaylist { playlist_idx: usize, track_idx: usize },
    RemoveFromPlaylist { playlist_idx: usize, track_idx: usize },
    CreatePlaylist(String),
    DeletePlaylist(usize),
    RenamePlaylist { idx: usize, name: String },
    LibrarySync,
}

/// A command for the audio engine.
#[derive(Debug, Clone)]
pub enum PlayerCommand {
    Play(String),
    Pause,
    Resume,
    Stop,
    /// Percent.
    SetVolume(u32),
    /// Milliseconds.
    Seek(u64),
}

/// Work the caller carries out after an action.
#[derive(Debug, Clone)]
pub enum Effect {
    Player(PlayerCommand),
    /// Rescan the music directory in the background and deliver the new
    /// library to `App::replace_library`.
    Rescan,
}

pub struct App {
    pub should_quit: bool,
    pub tab: Tab,
    pub focus: FocusedPane,
    pub playback: PlaybackState,
    pub queue: QueueState,
    pub library: Library,
    pub music_dir: String,
    pub search_query: String,
    pub search_mode: bool,
    pub search_results: Vec<usize>,
    pub playlists: Vec<Playlist>,
    pub track_just_changed: bool,
    pub sync_state: SyncState,
    pub initial_scan_complete: bool,
}

/// The effect of starting library track `t`.
pub open spec fn play_effect(a: App, t: int) -> Effect {
    Effect::Player(PlayerCommand::Play(a.library.tracks@[t].path))
}

/// Everything but the playback state, the queue's current entry and the
/// track-change flag is as before.
pub open spec fn same_but_playback(a: App, b: App) -> bool {
    &&& b.should_quit == a.should_quit
    &&& b.tab == a.tab
    &&& b.focus == a.focus
    &&& b.playback.volume == a.playback.volume
    &&& b.playback.shuffle == a.playback.shuffle
    &&& b.playback.repeat == a.playback.repeat
    &&& b.queue.tracks@ == a.queue.tracks@
    &&& b.queue.selected_index == a.queue.selected_index
    &&& b.queue.scroll_offset == a.queue.scroll_offset
    &&& b.library.tracks@ == a.library.tracks@
    &&& b.music_dir@ == a.music_dir@
    &&& b.search_query@ == a.search_query@
    &&& b.search_mode == a.search_mode
    &&& b.search_results@ == a.search_results@
    &&& b.playlists@ == a.playlists@
    &&& b.sync_state == a.sync_state
    &&& b.initial_scan_complete == a.initial_scan_complete
}

/// Nothing changed at all.
pub open spec fn unchanged(a: App, b: App) -> bool {
    &&& same_but_playback(a, b)
    &&& b.playback == a.playback
    &&& b.queue.current_index == a.queue.current_index
    &&& b.track_just_changed == a.track_just_changed
}

/// `b` is `a` with library track `t` started from the top: playing, at
/// position 0, with that track's length, flagged as a track change.
pub open spec fn started(a: App, b: App, t: int) -> bool {
    &&& same_but_playback(a, b)
    &&& b.playback.state == PlayState::Playing
    &&& b.playback.position_ms == 0
    &&& b.playback.duration_ms == a.library.tracks@[t].duration_ms
    &&& b.track_just_changed
}

/// What "next track" does when the queue is not empty and repeat-one is off:
/// the queue entry to move to, or None to stop. Shuffle picks at random and
/// is not covered here.
pub open spec fn sequential_next(current: Option<usize>, len: int, repeat: RepeatMode) -> Option<int> {
    match current {
        Some(idx) => if idx + 1 < len {
            Some(idx + 1)
        } else if repeat == RepeatMode::All {
            Some(0)
        } else {
            None
        },
        None => Some(0),
    }
}

/// The queue entry "previous track" moves to when not restarting.
pub open spec fn previous_entry(current: Option<usize>, len: int, repeat: RepeatMode) -> int {
    match current {
        Some(idx) => if idx > 0 {
            idx - 1
        } else if repeat == RepeatMode::All {
            len - 1
        } else {
            0
        },
        None => 0,
    }
}

/// `b` and `eff` are what starting library track `t` does to `a`: started
/// if the track exists, nothing otherwise.
#[verifier::opaque]
pub open spec fn play_track_post(a: App, b: App, t: int, eff: Seq<Effect>) -> bool {
    if 0 <= t < a.library.tracks@.len() {
        started(a, b, t) && b.queue.current_index == a.queue.current_index && eff == seq![play_effect(a, t)]
    } else {
        unchanged(a, b) && eff.len() == 0
    }
}

/// What "next track" does (see `App::play_next`).
#[verifier::opaque]
pub open spec fn next_post(a: App, b: App, eff: Seq<Effect>) -> bool {
    let len = a.queue.tracks@.len() as int;
    if len == 0 {
        unchanged(a, b) && eff.len() == 0
    } else if a.playback.repeat == RepeatMode::One {
        match a.queue.current_index {
            Some(c) => started(a, b, a.queue.tracks@[c as int] as int)
                && b.queue.current_index == a.queue.current_index
                && eff == seq![play_effect(a, a.queue.tracks@[c as int] as int)],
            None => unchanged(a, b) && eff.len() == 0,
        }
    } else if a.playback.shuffle {
        exists|n: int| 0 <= n < len && b.queue.current_index == Some(n as usize)
            && started(a, b, a.queue.tracks@[n] as int)
            && eff == seq![play_effect(a, a.queue.tracks@[n] as int)]
    } else {
        match sequential_next(a.queue.current_index, len, a.playback.repeat) {
            Some(n) => b.queue.current_index == Some(n as usize)
                && started(a, b, a.queue.tracks@[n] as int)
                && eff == seq![play_effect(a, a.queue.tracks@[n] as int)],
            None => same_but_playback(a, b) && b.playback.state == PlayState::Stopped
                && b.playback.position_ms == 0
                && b.playback.duration_ms == a.playback.duration_ms
                && b.queue.current_index == a.queue.current_index
                && b.track_just_changed == a.track_just_changed
                && eff.len() == 0,
        }
    }
}

/// What "previous track" does (see `App::play_prev`).
#[verifier::opaque]
pub open spec fn prev_post(a: App, b: App, eff: Seq<Effect>) -> bool {
    let len = a.queue.tracks@.len() as int;
    if len == 0 {
        unchanged(a, b) && eff.len() == 0
    } else if a.playback.position_ms > RESTART_THRESHOLD_MS && a.queue.current_index is Some {
        let t = a.queue.tracks@[a.queue.current_index->0 as int] as int;
        same_but_playback(a, b)
            && b.playback.state == a.playback.state
            && b.playback.position_ms == 0
            && b.playback.duration_ms == a.library.tracks@[t].duration_ms
            && b.track_just_changed
            && b.queue.current_index == a.queue.current_index
            && eff == seq![play_effect(a, t)]
    } else {
        let p = previous_entry(a.queue.current_index, len, a.playback.repeat);
        b.queue.current_index == Some(p as usize)
            && started(a, b, a.queue.tracks@[p] as int)
            && eff == seq![play_effect(a, a.queue.tracks@[p] as int)]
    }
}

/// More than three seconds into a track, "previous" restarts it.
pub const RESTART_THRESHOLD_MS: u64 = 3000;

/// Seeking forward or back moves by five seconds.
pub const SEEK_STEP_MS: u64 = 5000;

/// A uniformly random index below `n`, from `rand`'s thread-local generator.
/// Nothing is promised of which index comes back beyond its range.
#[verifier::external_body]
fn random_below(n: usize) -> (r: usize)
    requires
        n > 0,
    ensures
        r < n,
{
    rand::thread_rng().gen_range(0..n)
}

/// Whether `v` holds `x`.
pub fn contains_index(v: &Vec<usize>, x: usize) -> (r: bool)
    ensures
        r == v@.contains(x),
{
    let mut i: usize = 0;
    while i < v.len()
        invariant
            i <= v@.len(),
            forall|k: int| 0 <= k < i ==> v@[k] != x,
        decreases v@.len() - i,
    {
        if v[i] == x {
            assert(v@[i as int] == x);
            return true;
        }
        i += 1;
    }
    false
}

/// `v` without any occurrence of `x`, order kept.
pub open spec fn without(v: Seq<usize>, x: usize) -> Seq<usize> {
    v.filter(|y: usize| y != x)
}

/// Removes every occurrence of `x`, keeping the order of the rest.
pub fn remove_all(v: &mut Vec<usize>, x: usize)
    ensures
        final(v)@ == without(old(v)@, x),
{
    let ghost orig = v@;
    let mut kept: Vec<usize> = Vec::new();
    let mut i: usize = 0;
    while i < v.len()
        invariant
            v@ == orig,
            i <= v@.len(),
            kept@ == without(orig.take(i as int), x),
        decreases v@.len() - i,
    {
        assert(orig.take(i + 1).drop_last() =~= orig.take(i as int));
        reveal_with_fuel(Seq::filter, 1);
        if v[i] != x {
            kept.push(v[i]);
        }
        i += 1;
    }
    assert(orig.take(orig.len() as int) =~= orig);
    *v = kept;
}

impl App {
    /// Library indices in the queue are valid, the current entry is in the
    /// queue, and the volume is a percentage.
    pub open spec fn wf(self) -> bool {
        &&& forall|k: int| 0 <= k < self.queue.tracks@.len() ==> #[trigger] self.queue.tracks@[k] < self.library.tracks@.len()
        &&& self.queue.current_index matches Some(c) ==> c < self.queue.tracks@.len()
        &&& self.playback.volume <= 100
    }

    /// Whether the session is well formed (see `wf`).
    pub fn is_consistent(&self) -> (r: bool)
        ensures
            r == self.wf(),
    {
        let n = self.library.tracks.len();
        let mut i: usize = 0;
        while i < self.queue.tracks.len()
            invariant
                i <= self.queue.tracks@.len(),
                n == self.library.tracks@.len(),
                forall|k: int| 0 <= k < i ==> #[trigger] self.queue.tracks@[k] < n,
            decreases self.queue.tracks@.len() - i,
        {
            if self.queue.tracks[i] >= n {
                assert(!(self.queue.tracks@[i as int] < n));
                return false;
            }
            i += 1;
        }
        let current_ok = match self.queue.current_index {
            Some(c) => c < self.queue.tracks.len(),
            None => true,
        };
        current_ok && self.playback.volume <= 100
    }

    /// A fresh session on `music_dir`: an empty library and queue, the Queue
    /// tab, library focus, one empty "Bookmarks" playlist.
    pub fn new(music_dir: String) -> (a: App)
        ensures
            a.wf(),
            a.music_dir == music_dir,
            !a.should_quit,
            a.tab == Tab::Queue,
            a.focus == FocusedPane::Library,
            a.playback.state == PlayState::Stopped,
            a.playback.volume == 80,
            a.queue.tracks@.len() == 0,
            a.queue.current_index is None,
            a.library.tracks@.len() == 0,
            a.search_query@.len() == 0,
            !a.search_mode,
            a.search_results@.len() == 0,
            a.playlists@.len() == 1,
            a.playlists@[0].name@ == "Bookmarks"@,
            a.playlists@[0].tracks@.len() == 0,
            a.playlists@[0].missing@.len() == 0,
            !a.track_just_changed,
            a.sync_state == SyncState::Idle,
            !a.initial_scan_complete,
    {
        let mut playlists: Vec<Playlist> = Vec::new();
        playlists.push(Playlist::new("Bookmarks"));
        App {
            should_quit: false,
            tab: Tab::Queue,
            focus: FocusedPane::Library,
            playback: PlaybackState::default(),
            queue: QueueState::new(),
            library: Library::new(),
            music_dir,
            search_query: String::new(),
            search_mode: false,
            search_results: Vec::new(),
            playlists,
            track_just_changed: false,
            sync_state: SyncState::Idle,
            initial_scan_complete: false,
        }
    }

    /// Starts library track `t` from the top, if it exists.
    pub fn play_track(&mut self, t: usize) -> (eff: Vec<Effect>)
        requires
            old(self).wf(),
        ensures
            final(self).wf(),
            play_track_post(*old(self), *final(self), t as int, eff@),
    {
        reveal(play_track_post);
        let mut eff: Vec<Effect> = Vec::new();
        if t < self.library.tracks.len() {
            let path = self.library.tracks[t].path.clone();
            let dur = self.library.tracks[t].duration_ms;
            eff.push(Effect::Player(PlayerCommand::Play(path)));
            self.playback.state = PlayState::Playing;
            self.playback.position_ms = 0;
            self.playback.duration_ms = dur;
            self.track_just_changed = true;
        }
        eff
    }

    /// Moves to queue entry `q` and plays it.
    fn play_entry(&mut self, q: usize) -> (eff: Vec<Effect>)
        requires
            old(self).wf(),
            q < old(self).queue.tracks@.len(),
        ensures
            final(self).wf(),
            final(self).queue.current_index == Some(q),
            started(*old(self), *final(self), old(self).queue.tracks@[q as int] as int),
            eff@ == seq![play_effect(*old(self), old(self).queue.tracks@[q as int] as int)],
    {
        reveal(play_track_post);
        self.queue.current_index = Some(q);
        let t = self.queue.tracks[q];
        self.play_track(t)
    }

    /// Advances after a track ends or on "next": repeat-one replays the
    /// current entry; shuffle picks any entry at random; otherwise the next
    /// entry, wrapping to the first under repeat-all, or stops at the end.
    pub fn play_next(&mut self) -> (eff: Vec<Effect>)
        requires
            old(self).wf(),
        ensures
            final(self).wf(),
            next_post(*old(self), *final(self), eff@),
    {
        reveal(next_post);
        reveal(play_track_post);
        let len = self.queue.tracks.len();
        if len == 0 {
            return Vec::new();
        }
        if self.playback.repeat == RepeatMode::One {
            match self.queue.current_index {
                Some(c) => {
                    let t = self.queue.tracks[c];
                    return self.play_track(t);
                },
                None => {
                    return Vec::new();
                },
            }
        }
        let next: Option<usize> = if self.playback.shuffle {
            Some(random_below(len))
        } else {
            match self.queue.current_index {
                Some(idx) => {
                    if idx + 1 < len {
                        Some(idx + 1)
                    } else if self.playback.repeat == RepeatMode::All {
                        Some(0)
                    } else {
                        None
                    }
                },
                None => Some(0),
            }
        };
        match next {
            Some(n) => {
                let ghost a = *self;
                let eff = self.play_entry(n);
                assert(self.queue.current_index == Some(n));
                eff
            },
            None => {
                self.playback.state = PlayState::Stopped;
                self.playback.position_ms = 0;
                Vec::new()
            },
        }
    }

    /// Goes back: past the first three seconds it restarts the current
    /// entry (leaving the play state as it is); otherwise it moves to the
    /// previous entry, wrapping to the last under repeat-all and staying on
    /// the first otherwise.
    pub fn play_prev(&mut self) -> (eff: Vec<Effect>)
        requires
            old(self).wf(),
        ensures
            final(self).wf(),
            prev_post(*old(self), *final(self), eff@),
    {
        reveal(prev_post);
        let len = self.queue.tracks.len();
        if len == 0 {
            return Vec::new();
        }
        if self.playback.position_ms > RESTART_THRESHOLD_MS {
            match self.queue.current_index {
                Some(idx) => {
                    let t = self.queue.tracks[idx];
                    let path = self.library.tracks[t].path.clone();
                    let dur = self.library.tracks[t].duration_ms;
                    self.playback.position_ms = 0;
                    self.playback.duration_ms = dur;
                    self.track_just_changed = true;
                    let mut eff: Vec<Effect> = Vec::new();
                    eff.push(Effect::Player(PlayerCommand::Play(path)));
                    return eff;
                },
                None => {},
            }
        }
        let prev: usize = match self.queue.current_index {
            Some(idx) => {
                if idx > 0 {
                    idx - 1
                } else if self.playback.repeat == RepeatMode::All {
                    len - 1
                } else {
                    0
                }
            },
            None => 0,
        };
        self.play_entry(prev)
    }
}

/// Fields outside the named groups are unchanged.
pub open spec fn same_except(a: App, b: App, queue: bool, playlists: bool, playback: bool, nav: bool, flags: bool) -> bool {
    &&& !queue ==> b.queue.tracks@ == a.queue.tracks@ && b.queue.current_index == a.queue.current_index
        && b.queue.selected_index == a.queue.selected_index && b.queue.scroll_offset == a.queue.scroll_offset
    &&& !playlists ==> b.playlists@ == a.playlists@
    &&& !playback ==> b.playback == a.playback && b.track_just_changed == a.track_just_changed
    &&& !nav ==> b.tab == a.tab && b.focus == a.focus
    &&& !flags ==> b.should_quit == a.should_quit && b.sync_state == a.sync_state
    &&& b.library.tracks@ == a.library.tracks@
    &&& b.music_dir@ == a.music_dir@
    &&& b.search_query@ == a.search_query@
    &&& b.search_mode == a.search_mode
    &&& b.search_results@ == a.search_results@
    &&& b.initial_scan_complete == a.initial_scan_complete
}

/// The queue entry that stays current after removing entry `idx`.
pub open spec fn current_after_remove(current: Option<usize>, idx: int, new_len: int) -> Option<usize> {
    if new_len == 0 {
        None
    } else {
        match current {
            Some(ci) => if idx < ci {
                Some((ci - 1) as usize)
            } else if idx == ci && ci >= new_len {
                Some((new_len - 1) as usize)
            } else {
                Some(ci)
            },
            None => None,
        }
    }
}

/// Playlist `p` of `b` is playlist `p` of `a` with `tracks` as its tracks and
/// its name and missing paths kept; every other playlist is unchanged.
pub open spec fn playlist_tracks_set(a: Seq<Playlist>, b: Seq<Playlist>, p: int, tracks: Seq<usize>) -> bool {
    &&& b.len() == a.len()
    &&& forall|k: int| 0 <= k < a.len() && k != p ==> #[trigger] b[k] == a[k]
    &&& b[p].tracks@ == tracks
    &&& b[p].name == a[p].name
    &&& b[p].missing == a[p].missing
}

/// The volume that results from asking for `v` percent.
pub open spec fn clamp_volume(v: int) -> u32 {
    if v > 100 { 100 } else if v < 0 { 0 } else { v as u32 }
}

/// The position a seek to `ms` lands on: within the track.
pub open spec fn clamp_seek(ms: int, duration: int) -> u64 {
    if ms < 0 { 0 } else if ms > duration { duration as u64 } else { ms as u64 }
}

/// The volume and the effect of asking for `v` percent.
#[verifier::opaque]
pub open spec fn volume_post(a: App, b: App, v: int, eff: Seq<Effect>) -> bool {
    &&& same_except(a, b, false, false, true, false, false)
    &&& b.playback == PlaybackState { volume: clamp_volume(v), ..a.playback }
    &&& b.track_just_changed == a.track_just_changed
    &&& eff == seq![Effect::Player(PlayerCommand::SetVolume(clamp_volume(v)))]
}

/// The position and the effect of seeking to `ms`.
#[verifier::opaque]
pub open spec fn seek_post(a: App, b: App, ms: int, eff: Seq<Effect>) -> bool {
    let p = clamp_seek(ms, a.playback.duration_ms as int);
    &&& same_except(a, b, false, false, true, false, false)
    &&& b.playback == PlaybackState { position_ms: p, ..a.playback }
    &&& b.track_just_changed == a.track_just_changed
    &&& eff == seq![Effect::Player(PlayerCommand::Seek(p))]
}

/// The actions a session can take: the tracks queued are library tracks.
pub open spec fn action_ok(a: App, action: AppAction) -> bool {
    match action {
        AppAction::AddToQueue(v) => all_below(v@, a.library.tracks@.len() as int),
        _ => true,
    }
}

/// Every entry of `v` is below `n`.
pub open spec fn all_below(v: Seq<usize>, n: int) -> bool {
    forall|k: int| 0 <= k < v.len() ==> #[trigger] v[k] < n
}

/// Quitting flags the session and stops the audio.
#[verifier::opaque]
pub open spec fn quit_post(a: App, b: App, eff: Seq<Effect>) -> bool {
    same_except(a, b, false, false, false, false, true) && b.should_quit
        && b.sync_state == a.sync_state && eff == seq![Effect::Player(PlayerCommand::Stop)]
}

/// Play/pause toggles between playing and paused; when stopped it starts the
/// current queue entry, if there is one.
#[verifier::opaque]
pub open spec fn pause_resume_post(a: App, b: App, eff: Seq<Effect>) -> bool {
    match a.playback.state {
        PlayState::Playing => same_except(a, b, false, false, true, false, false)
            && b.playback == PlaybackState { state: PlayState::Paused, ..a.playback }
            && b.track_just_changed == a.track_just_changed
            && eff == seq![Effect::Player(PlayerCommand::Pause)],
        PlayState::Paused => same_except(a, b, false, false, true, false, false)
            && b.playback == PlaybackState { state: PlayState::Playing, ..a.playback }
            && b.track_just_changed == a.track_just_changed
            && eff == seq![Effect::Player(PlayerCommand::Resume)],
        PlayState::Stopped => match a.queue.current_index {
            Some(c) => play_track_post(a, b, a.queue.tracks@[c as int] as int, eff),
            None => unchanged(a, b) && eff.len() == 0,
        },
    }
}

/// Only the playback settings change, to `p`, with no effect.
#[verifier::opaque]
pub open spec fn playback_set(a: App, b: App, p: PlaybackState, eff: Seq<Effect>) -> bool {
    same_except(a, b, false, false, true, false, false) && b.playback == p
        && b.track_just_changed == a.track_just_changed && eff.len() == 0
}

/// Only the tab and the focused pane change, to the given ones.
#[verifier::opaque]
pub open spec fn nav_set(a: App, b: App, tab: Tab, focus: FocusedPane, eff: Seq<Effect>) -> bool {
    same_except(a, b, false, false, false, true, false) && b.tab == tab && b.focus == focus && eff.len() == 0
}

/// The library track of the entry that is playing, if the current entry
/// names one.
pub open spec fn playing_entry(a: App) -> Option<usize> {
    match a.queue.current_index {
        Some(c) => if c < a.queue.tracks@.len() { Some(a.queue.tracks@[c as int]) } else { None },
        None => None,
    }
}

/// The queue after adding `v`: the playing track stays, as the first entry,
/// and `v` follows it; with nothing playing the queue is `v`.
pub open spec fn queued_with(a: App, v: Seq<usize>) -> Seq<usize> {
    match playing_entry(a) {
        Some(t) => seq![t] + v,
        None => v,
    }
}

/// The queue becomes `v`, starting at its first entry.
#[verifier::opaque]
pub open spec fn replace_queue_post(a: App, b: App, v: Seq<usize>, eff: Seq<Effect>) -> bool {
    same_except(a, b, true, false, false, false, false)
        && b.queue.tracks@ == v
        && b.queue.current_index == (if v.len() == 0 { None } else { Some(0usize) })
        && b.queue.selected_index == 0 && b.queue.scroll_offset == 0 && eff.len() == 0
}

/// Entry `idx` leaves the queue; the current entry keeps pointing at the
/// same track, or at the new last entry if the last one was removed.
#[verifier::opaque]
pub open spec fn remove_post(a: App, b: App, idx: int, eff: Seq<Effect>) -> bool {
    if 0 <= idx < a.queue.tracks@.len() {
        same_except(a, b, true, false, false, false, false)
            && b.queue.tracks@ == a.queue.tracks@.remove(idx)
            && b.queue.current_index == current_after_remove(a.queue.current_index, idx, a.queue.tracks@.len() - 1)
            && b.queue.selected_index == a.queue.selected_index
            && b.queue.scroll_offset == a.queue.scroll_offset && eff.len() == 0
    } else {
        unchanged(a, b) && eff.len() == 0
    }
}

/// Queue entry `idx` becomes current and starts playing.
#[verifier::opaque]
pub open spec fn play_index_post(a: App, b: App, idx: int, eff: Seq<Effect>) -> bool {
    if 0 <= idx < a.queue.tracks@.len() {
        b.queue.current_index == Some(idx as usize) && started(a, b, a.queue.tracks@[idx] as int)
            && eff == seq![play_effect(a, a.queue.tracks@[idx] as int)]
    } else {
        unchanged(a, b) && eff.len() == 0
    }
}

/// The selection moves to entry `idx` if the queue has one.
#[verifier::opaque]
pub open spec fn select_post(a: App, b: App, idx: int, eff: Seq<Effect>) -> bool {
    same_except(a, b, true, false, false, false, false)
        && b.queue.tracks@ == a.queue.tracks@ && b.queue.current_index == a.queue.current_index
        && b.queue.scroll_offset == a.queue.scroll_offset
        && b.queue.selected_index == (if 0 <= idx < a.queue.tracks@.len() { idx as usize } else { a.queue.selected_index })
        && eff.len() == 0
}

/// Playlist `p`'s tracks become `tracks`, if playlist `p` exists.
#[verifier::opaque]
pub open spec fn playlist_post(a: App, b: App, p: int, tracks: Seq<usize>, eff: Seq<Effect>) -> bool {
    if 0 <= p < a.playlists@.len() {
        same_except(a, b, false, true, false, false, false) && eff.len() == 0
            && playlist_tracks_set(a.playlists@, b.playlists@, p, tracks)
    } else {
        unchanged(a, b) && eff.len() == 0
    }
}

/// The tracks of playlist `p` with `t` added at the end unless present.
pub open spec fn with_track(a: App, p: int, t: usize) -> Seq<usize> {
    let old_tracks = a.playlists@[p].tracks@;
    if old_tracks.contains(t) { old_tracks } else { old_tracks.push(t) }
}

/// An empty playlist called `name` is appended.
#[verifier::opaque]
pub open spec fn create_post(a: App, b: App, name: Seq<char>, eff: Seq<Effect>) -> bool {
    same_except(a, b, false, true, false, false, false) && eff.len() == 0
        && b.playlists@.len() == a.playlists@.len() + 1
        && b.playlists@.drop_last() == a.playlists@
        && b.playlists@.last().name@ == name
        && b.playlists@.last().tracks@.len() == 0 && b.playlists@.last().missing@.len() == 0
}

/// Playlist `idx` is removed, if it exists.
#[verifier::opaque]
pub open spec fn delete_post(a: App, b: App, idx: int, eff: Seq<Effect>) -> bool {
    same_except(a, b, false, true, false, false, false) && eff.len() == 0
        && b.playlists@ == (if 0 <= idx < a.playlists@.len() { a.playlists@.remove(idx) } else { a.playlists@ })
}

/// Playlist `idx` is called `name`, if it exists.
#[verifier::opaque]
pub open spec fn rename_post(a: App, b: App, idx: int, name: String, eff: Seq<Effect>) -> bool {
    if 0 <= idx < a.playlists@.len() {
        same_except(a, b, false, true, false, false, false) && eff.len() == 0
            && b.playlists@.len() == a.playlists@.len()
            && (forall|k: int| 0 <= k < a.playlists@.len() && k != idx ==> #[trigger] b.playlists@[k] == a.playlists@[k])
            && b.playlists@[idx].name == name
            && b.playlists@[idx].tracks == a.playlists@[idx].tracks
            && b.playlists@[idx].missing == a.playlists@[idx].missing
    } else {
        unchanged(a, b) && eff.len() == 0
    }
}

/// A rescan is requested unless one is running or the first scan has not
/// finished.
#[verifier::opaque]
pub open spec fn sync_post(a: App, b: App, eff: Seq<Effect>) -> bool {
    if a.sync_state == SyncState::Scanning || !a.initial_scan_complete {
        unchanged(a, b) && eff.len() == 0
    } else {
        same_except(a, b, false, false, false, false, true) && b.should_quit == a.should_quit
            && b.sync_state == SyncState::Scanning && eff == seq![Effect::Rescan]
    }
}

/// What each action does to the session, and the effects it asks for.
pub open spec fn action_post(a: App, action: AppAction, b: App, eff: Seq<Effect>) -> bool {
    match action {
        AppAction::Quit => quit_post(a, b, eff),
        AppAction::PlayTrack(t) => play_track_post(a, b, t as int, eff),
        AppAction::PauseResume => pause_resume_post(a, b, eff),
        AppAction::NextTrack => next_post(a, b, eff),
        AppAction::TrackFinished => next_post(a, b, eff),
        AppAction::PrevTrack => prev_post(a, b, eff),
        AppAction::SetVolume(v) => volume_post(a, b, v as int, eff),
        AppAction::VolumeUp => volume_post(a, b, a.playback.volume + VOLUME_STEP, eff),
        AppAction::VolumeDown => volume_post(a, b, a.playback.volume - VOLUME_STEP, eff),
        AppAction::Seek(ms) => seek_post(a, b, ms as int, eff),
        AppAction::SeekForward => seek_post(a, b, a.playback.position_ms + SEEK_STEP_MS, eff),
        AppAction::SeekBackward => seek_post(a, b, a.playback.position_ms - SEEK_STEP_MS, eff),
        AppAction::ToggleShuffle => playback_set(a, b, PlaybackState { shuffle: !a.playback.shuffle, ..a.playback }, eff),
        AppAction::CycleRepeat => playback_set(a, b, PlaybackState { repeat: a.playback.repeat.successor(), ..a.playback }, eff),
        AppAction::SwitchTab(t) => nav_set(a, b, t, a.focus, eff),
        AppAction::FocusNext => nav_set(a, b, a.tab, a.focus.following(), eff),
        AppAction::FocusPrev => nav_set(a, b, a.tab, a.focus.preceding(), eff),
        AppAction::FocusPane(p) => nav_set(a, b, a.tab, p, eff),
        AppAction::AddToQueue(v) => replace_queue_post(a, b, queued_with(a, v@), eff),
        AppAction::ClearQueue => replace_queue_post(a, b, Seq::empty(), eff),
        AppAction::RemoveFromQueue(idx) => remove_post(a, b, idx as int, eff),
        AppAction::PlayQueueIndex(idx) => play_index_post(a, b, idx as int, eff),
        AppAction::UpdatePosition { position_ms, duration_ms } => playback_set(a, b, PlaybackState {
                position_ms,
                duration_ms: if duration_ms > 0 { duration_ms } else { a.playback.duration_ms },
                ..a.playback
            }, eff),
        AppAction::SetQueueSelection(idx) => select_post(a, b, idx as int, eff),
        AppAction::AddToPlaylist { playlist_idx, track_idx } =>
            playlist_post(a, b, playlist_idx as int, with_track(a, playlist_idx as int, track_idx), eff),
        AppAction::RemoveFromPlaylist { playlist_idx, track_idx } =>
            playlist_post(a, b, playlist_idx as int, without(a.playlists@[playlist_idx as int].tracks@, track_idx), eff),
        AppAction::CreatePlaylist(name) => create_post(a, b, name@, eff),
        AppAction::DeletePlaylist(idx) => delete_post(a, b, idx as int, eff),
        AppAction::RenamePlaylist { idx, name } => rename_post(a, b, idx as int, name, eff),
        AppAction::LibrarySync => sync_post(a, b, eff),
    }
}

impl App {
    fn set_volume(&mut self, v: u32) -> (eff: Vec<Effect>)
        requires
            old(self).wf(),
        ensures
            final(self).wf(),
            volume_post(*old(self), *final(self), v as int, eff@),
    {
        reveal(volume_post);
        let vol = if v > 100 { 100 } else { v };
        self.playback.volume = vol;
        let mut eff: Vec<Effect> = Vec::new();
        eff.push(Effect::Player(PlayerCommand::SetVolume(vol)));
        eff
    }

    fn seek(&mut self, ms: u64) -> (eff: Vec<Effect>)
        requires
            old(self).wf(),
        ensures
            final(self).wf(),
            seek_post(*old(self), *final(self), ms as int, eff@),
    {
        reveal(seek_post);
        let p = if ms > self.playback.duration_ms { self.playback.duration_ms } else { ms };
        self.playback.position_ms = p;
        let mut eff: Vec<Effect> = Vec::new();
        eff.push(Effect::Player(PlayerCommand::Seek(p)));
        eff
    }

    fn quit(&mut self) -> (eff: Vec<Effect>)
        requires
            old(self).wf(),
        ensures
            final(self).wf(),
            quit_post(*old(self), *final(self), eff@),
    {
        reveal(quit_post);
        self.should_quit = true;
        let mut eff: Vec<Effect> = Vec::new();
        eff.push(Effect::Player(PlayerCommand::Stop));
        eff
    }

    fn pause_resume(&mut self) -> (eff: Vec<Effect>)
        requires
            old(self).wf(),
        ensures
            final(self).wf(),
            pause_resume_post(*old(self), *final(self), eff@),
    {
        reveal(pause_resume_post);
        reveal(play_track_post);
        match self.playback.state {
            PlayState::Playing => {
                self.playback.state = PlayState::Paused;
                let mut eff: Vec<Effect> = Vec::new();
                eff.push(Effect::Player(PlayerCommand::Pause));
                eff
            },
            PlayState::Paused => {
                self.playback.state = PlayState::Playing;
                let mut eff: Vec<Effect> = Vec::new();
                eff.push(Effect::Player(PlayerCommand::Resume));
                eff
            },
            PlayState::Stopped => {
                match self.queue.current_index {
                    Some(idx) => {
                        let t = self.queue.tracks[idx];
                        self.play_track(t)
                    },
                    None => Vec::new(),
                }
            },
        }
    }

    fn replace_queue(&mut self, v: Vec<usize>) -> (eff: Vec<Effect>)
        requires
            old(self).wf(),
            forall|k: int| 0 <= k < v@.len() ==> #[trigger] v@[k] < old(self).library.tracks@.len(),
        ensures
            final(self).wf(),
            replace_queue_post(*old(self), *final(self), v@, eff@),
    {
        reveal(replace_queue_post);
        let empty = v.len() == 0;
        self.queue.tracks = v;
        self.queue.current_index = if empty { None } else { Some(0) };
        self.queue.selected_index = 0;
        self.queue.scroll_offset = 0;
        Vec::new()
    }

    fn add_to_queue(&mut self, v: Vec<usize>) -> (eff: Vec<Effect>)
        requires
            old(self).wf(),
            forall|k: int| 0 <= k < v@.len() ==> #[trigger] v@[k] < old(self).library.tracks@.len(),
        ensures
            final(self).wf(),
            replace_queue_post(*old(self), *final(self), queued_with(*old(self), v@), eff@),
    {
        let playing: Option<usize> = match self.queue.current_index {
            Some(c) => if c < self.queue.tracks.len() { Some(self.queue.tracks[c]) } else { None },
            None => None,
        };
        match playing {
            Some(t) => {
                let ghost added = v@;
                let mut v = v;
                let mut q: Vec<usize> = Vec::new();
                q.push(t);
                q.append(&mut v);
                assert(q@ =~= seq![t] + added);
                self.replace_queue(q)
            },
            None => self.replace_queue(v),
        }
    }

    fn remove_from_queue(&mut self, idx: usize) -> (eff: Vec<Effect>)
        requires
            old(self).wf(),
        ensures
            final(self).wf(),
            remove_post(*old(self), *final(self), idx as int, eff@),
    {
        reveal(remove_post);
        let ghost a = *self;
        if idx < self.queue.tracks.len() {
            self.queue.tracks.remove(idx);
            let len = self.queue.tracks.len();
            if len == 0 {
                self.queue.current_index = None;
            } else {
                match self.queue.current_index {
                    Some(ci) => {
                        if idx < ci {
                            self.queue.current_index = Some(ci - 1);
                        } else if idx == ci && ci >= len {
                            self.queue.current_index = Some(len - 1);
                        }
                    },
                    None => {},
                }
            }
            assert forall|k: int| 0 <= k < self.queue.tracks@.len() implies #[trigger] self.queue.tracks@[k] < self.library.tracks@.len() by {
                if k < idx {
                    assert(self.queue.tracks@[k] == a.queue.tracks@[k]);
                } else {
                    assert(self.queue.tracks@[k] == a.queue.tracks@[k + 1]);
                }
            }
        }
        Vec::new()
    }

    fn add_to_playlist(&mut self, playlist_idx: usize, track_idx: usize) -> (eff: Vec<Effect>)
        requires
            old(self).wf(),
        ensures
            final(self).wf(),
            playlist_post(*old(self), *final(self), playlist_idx as int,
                with_track(*old(self), playlist_idx as int, track_idx), eff@),
    {
        reveal(playlist_post);
        let ghost a = *self;
        if playlist_idx < self.playlists.len() {
            let mut pl = self.playlists.remove(playlist_idx);
            if !contains_index(&pl.tracks, track_idx) {
                pl.tracks.push(track_idx);
            }
            self.playlists.insert(playlist_idx, pl);
            assert(self.playlists@ =~= a.playlists@.update(playlist_idx as int, self.playlists@[playlist_idx as int]));
        }
        Vec::new()
    }

    fn remove_from_playlist(&mut self, playlist_idx: usize, track_idx: usize) -> (eff: Vec<Effect>)
        requires
            old(self).wf(),
        ensures
            final(self).wf(),
            playlist_post(*old(self), *final(self), playlist_idx as int,
                without(old(self).playlists@[playlist_idx as int].tracks@, track_idx), eff@),
    {
        reveal(playlist_post);
        let ghost a = *self;
        if playlist_idx < self.playlists.len() {
            let mut pl = self.playlists.remove(playlist_idx);
            remove_all(&mut pl.tracks, track_idx);
            self.playlists.insert(playlist_idx, pl);
            assert(self.playlists@ =~= a.playlists@.update(playlist_idx as int, self.playlists@[playlist_idx as int]));
        }
        Vec::new()
    }

    fn create_playlist(&mut self, name: String) -> (eff: Vec<Effect>)
        requires
            old(self).wf(),
        ensures
            final(self).wf(),
            create_post(*old(self), *final(self), name@, eff@),
    {
        reveal(create_post);
        let ghost a = *self;
        self.playlists.push(Playlist::new(name.as_str()));
        assert(self.playlists@.drop_last() =~= a.playlists@);
        Vec::new()
    }

    fn delete_playlist(&mut self, idx: usize) -> (eff: Vec<Effect>)
        requires
            old(self).wf(),
        ensures
            final(self).wf(),
            delete_post(*old(self), *final(self), idx as int, eff@),
    {
        reveal(delete_post);
        if idx < self.playlists.len() {
            self.playlists.remove(idx);
        }
        Vec::new()
    }

    fn rename_playlist(&mut self, idx: usize, name: String) -> (eff: Vec<Effect>)
        requires
            old(self).wf(),
        ensures
            final(self).wf(),
            rename_post(*old(self), *final(self), idx as int, name, eff@),
    {
        reveal(rename_post);
        let ghost a = *self;
        if idx < self.playlists.len() {
            let mut pl = self.playlists.remove(idx);
            pl.name = name;
            self.playlists.insert(idx, pl);
            assert(self.playlists@ =~= a.playlists@.update(idx as int, self.playlists@[idx as int]));
        }
        Vec::new()
    }

    fn library_sync(&mut self) -> (eff: Vec<Effect>)
        requires
            old(self).wf(),
        ensures
            final(self).wf(),
            sync_post(*old(self), *final(self), eff@),
    {
        reveal(sync_post);
        if self.sync_state == SyncState::Scanning || !self.initial_scan_complete {
            return Vec::new();
        }
        self.sync_state = SyncState::Scanning;
        let mut eff: Vec<Effect> = Vec::new();
        eff.push(Effect::Rescan);
        eff
    }

    /// Applies one action; see `action_post` for what each one does.
    #[verifier::rlimit(50)]
    pub fn handle_action(&mut self, action: AppAction) -> (eff: Vec<Effect>)
        requires
            old(self).wf(),
            action_ok(*old(self), action),
        ensures
            final(self).wf(),
            action_post(*old(self), action, *final(self), eff@),
    {
        reveal(playback_set);
        reveal(nav_set);
        reveal(play_index_post);
        reveal(select_post);
        reveal(replace_queue_post);
        match action {
            AppAction::Quit => self.quit(),
            AppAction::PlayTrack(t) => self.play_track(t),
            AppAction::PauseResume => self.pause_resume(),
            AppAction::NextTrack => self.play_next(),
            AppAction::TrackFinished => self.play_next(),
            AppAction::PrevTrack => self.play_prev(),
            AppAction::SetVolume(v) => self.set_volume(v),
            AppAction::VolumeUp => {
                reveal(volume_post);
                let v = self.playback.volume + VOLUME_STEP;
                self.set_volume(v)
            },
            AppAction::VolumeDown => {
                reveal(volume_post);
                let v = if self.playback.volume >= VOLUME_STEP { self.playback.volume - VOLUME_STEP } else { 0 };
                self.set_volume(v)
            },
            AppAction::Seek(ms) => self.seek(ms),
            AppAction::SeekForward => {
                reveal(seek_post);
                let p = if self.playback.position_ms <= u64::MAX - SEEK_STEP_MS {
                    self.playback.position_ms + SEEK_STEP_MS
                } else {
                    u64::MAX
                };
                self.seek(p)
            },
            AppAction::SeekBackward => {
                reveal(seek_post);
                let p = if self.playback.position_ms >= SEEK_STEP_MS { self.playback.position_ms - SEEK_STEP_MS } else { 0 };
                self.seek(p)
            },
            AppAction::ToggleShuffle => {
                self.playback.shuffle = !self.playback.shuffle;
                Vec::new()
            },
            AppAction::CycleRepeat => {
                self.playback.repeat = self.playback.repeat.next();
                Vec::new()
            },
            AppAction::SwitchTab(t) => {
                self.tab = t;
                Vec::new()
            },
            AppAction::FocusNext => {
                self.focus = self.focus.next();
                Vec::new()
            },
            AppAction::FocusPrev => {
                self.focus = self.focus.prev();
                Vec::new()
            },
            AppAction::FocusPane(p) => {
                self.focus = p;
                Vec::new()
            },
            AppAction::AddToQueue(v) => self.add_to_queue(v),
            AppAction::ClearQueue => self.replace_queue(Vec::new()),
            AppAction::RemoveFromQueue(idx) => self.remove_from_queue(idx),
            AppAction::PlayQueueIndex(idx) => {
                if idx < self.queue.tracks.len() {
                    self.play_entry(idx)
                } else {
                    Vec::new()
                }
            },
            AppAction::UpdatePosition { position_ms, duration_ms } => {
                self.playback.position_ms = position_ms;
                if duration_ms > 0 {
                    self.playback.duration_ms = duration_ms;
                }
                Vec::new()
            },
            AppAction::SetQueueSelection(idx) => {
                if idx < self.queue.tracks.len() {
                    self.queue.selected_index = idx;
                }
                Vec::new()
            },
            AppAction::AddToPlaylist { playlist_idx, track_idx } => self.add_to_playlist(playlist_idx, track_idx),
            AppAction::RemoveFromPlaylist { playlist_idx, track_idx } => self.remove_from_playlist(playlist_idx, track_idx),
            AppAction::CreatePlaylist(name) => self.create_playlist(name),
            AppAction::DeletePlaylist(idx) => self.delete_playlist(idx),
            AppAction::RenamePlaylist { idx, name } => self.rename_playlist(idx, name),
            AppAction::LibrarySync => self.library_sync(),
        }
    }

    /// The track the queue's current entry points at, if any.
    pub fn current_track(&self) -> (r: Option<&Track>)
        ensures
            r == (match self.queue.current_index {
                Some(qi) => if qi < self.queue.tracks@.len()
                    && self.queue.tracks@[qi as int] < self.library.tracks@.len() {
                    Some(&self.library.tracks@[self.queue.tracks@[qi as int] as int])
                } else {
                    None
                },
                None => None,
            }),
    {
        match self.queue.current_index {
            Some(qi) => {
                if qi < self.queue.tracks.len() {
                    let ti = self.queue.tracks[qi];
                    if ti < self.library.tracks.len() {
                        return Some(&self.library.tracks[ti]);
                    }
                }
                None
            },
            None => None,
        }
    }
}

/// The last of the first `n` tracks whose path is `p` (a map built from the
/// library in order keeps the last index for a repeated path).
pub open spec fn last_with_path(tracks: Seq<Track>, p: Seq<char>, n: int) -> Option<usize>
    decreases n,
{
    if n <= 0 {
        None
    } else if tracks[n - 1].path@ == p {
        Some((n - 1) as usize)
    } else {
        last_with_path(tracks, p, n - 1)
    }
}

/// Where old library index `i` lands in the new library: the new index of
/// the same path, if the old index was valid and the path survived.
pub open spec fn moved_index(old_lib: Seq<Track>, new_lib: Seq<Track>, i: usize) -> Option<usize> {
    if i < old_lib.len() {
        last_with_path(new_lib, old_lib[i as int].path@, new_lib.len() as int)
    } else {
        None
    }
}

/// Old library indices carried over to the new library, dropping the ones
/// whose track is gone, order kept.
pub open spec fn remap_indices(old_lib: Seq<Track>, new_lib: Seq<Track>, idxs: Seq<usize>) -> Seq<usize>
    decreases idxs.len(),
{
    if idxs.len() == 0 {
        Seq::empty()
    } else {
        let before = remap_indices(old_lib, new_lib, idxs.drop_last());
        match moved_index(old_lib, new_lib, idxs.last()) {
            Some(j) => before.push(j),
            None => before,
        }
    }
}

/// Paths of the old library indices in `idxs` whose track the new library
/// no longer has, in order.
pub open spec fn lost_paths(old_lib: Seq<Track>, new_lib: Seq<Track>, idxs: Seq<usize>) -> Seq<Seq<char>>
    decreases idxs.len(),
{
    if idxs.len() == 0 {
        Seq::empty()
    } else {
        let before = lost_paths(old_lib, new_lib, idxs.drop_last());
        let i = idxs.last();
        if i < old_lib.len() && moved_index(old_lib, new_lib, i) is None {
            before.push(old_lib[i as int].path@)
        } else {
            before
        }
    }
}

/// First position of `x` in `s`.
pub open spec fn position_of(s: Seq<usize>, x: usize) -> Option<usize> {
    if s.contains(x) {
        Some(choose|k: usize| k < s.len() && s[k as int] == x && forall|m: int| 0 <= m < k ==> s[m] != x)
    } else {
        None
    }
}

/// The largest valid index of a list of `len` entries, or 0.
pub open spec fn last_valid(len: int) -> usize {
    if len > 0 { (len - 1) as usize } else { 0 }
}

/// Path index of a library: its distinct paths in order, each with the last
/// library index holding it.
struct PathIndex {
    keys: Vec<String>,
    vals: Vec<usize>,
}

impl PathIndex {
    spec fn indexes(&self, tracks: Seq<Track>) -> bool {
        &&& self.keys@.len() == self.vals@.len()
        &&& crate::order::strictly_sorted(crate::order::views(self.keys@))
        &&& forall|k: int| 0 <= k < self.keys@.len() ==>
            last_with_path(tracks, #[trigger] self.keys@[k]@, tracks.len() as int) == Some(self.vals@[k])
        &&& forall|p: Seq<char>| last_with_path(tracks, p, tracks.len() as int) is Some
            ==> crate::order::views(self.keys@).contains(p)
    }

    fn build(tracks: &Vec<Track>) -> (r: PathIndex)
        ensures
            r.indexes(tracks@),
    {
        let mut keys: Vec<String> = Vec::new();
        let mut vals: Vec<usize> = Vec::new();
        let mut j: usize = 0;
        while j < tracks.len()
            invariant
                j <= tracks@.len(),
                keys@.len() == vals@.len(),
                crate::order::strictly_sorted(crate::order::views(keys@)),
                forall|k: int| 0 <= k < keys@.len() ==>
                    last_with_path(tracks@, #[trigger] keys@[k]@, j as int) == Some(vals@[k]),
                forall|p: Seq<char>| last_with_path(tracks@, p, j as int) is Some
                    ==> crate::order::views(keys@).contains(p),
            decreases tracks@.len() - j,
        {
            let path = tracks[j].path.clone();
            let ghost pv = path@;
            let ghost old_keys = keys@;
            let ghost old_vals = vals@;
            match crate::order::search_sorted(&keys, path.as_str()) {
                Ok(pos) => {
                    vals.set(pos, j);
                    assert forall|k: int| 0 <= k < keys@.len() implies
                        last_with_path(tracks@, #[trigger] keys@[k]@, j + 1) == Some(vals@[k]) by {
                        if k != pos {
                            assert(crate::order::views(keys@)[k] != crate::order::views(keys@)[pos as int]) by {
                                crate::order::lemma_lex_irreflexive(crate::order::views(keys@)[k]);
                            }
                        }
                    }
                    assert forall|p: Seq<char>| last_with_path(tracks@, p, j + 1) is Some
                        implies crate::order::views(keys@).contains(p) by {
                        if p == pv {
                            assert(crate::order::views(keys@)[pos as int] == p);
                        }
                    }
                },
                Err(pos) => {
                    proof {
                        crate::order::lemma_insert_keeps_sorted(crate::order::views(keys@), pv, pos as int);
                        crate::order::lemma_lex_irreflexive(pv);
                    }
                    keys.insert(pos, path);
                    vals.insert(pos, j);
                    assert(crate::order::views(keys@) =~= crate::order::views(old_keys).insert(pos as int, pv));
                    assert forall|k: int| 0 <= k < keys@.len() implies
                        last_with_path(tracks@, #[trigger] keys@[k]@, j + 1) == Some(vals@[k]) by {
                        if k < pos {
                            assert(keys@[k] == old_keys[k]);
                            assert(crate::order::lex_lt(crate::order::views(old_keys)[k], pv));
                        } else if k > pos {
                            assert(keys@[k] == old_keys[k - 1]);
                            assert(crate::order::lex_lt(pv, crate::order::views(old_keys)[k - 1]));
                        }
                    }
                    assert forall|p: Seq<char>| last_with_path(tracks@, p, j + 1) is Some
                        implies crate::order::views(keys@).contains(p) by {
                        if p == pv {
                            assert(crate::order::views(keys@)[pos as int] == p);
                        } else {
                            assert(crate::order::views(old_keys).contains(p));
                            let m = choose|m: int| 0 <= m < old_keys.len() && crate::order::views(old_keys)[m] == p;
                            if m < pos {
                                assert(crate::order::views(keys@)[m] == p);
                            } else {
                                assert(crate::order::views(keys@)[m + 1] == p);
                            }
                        }
                    }
                },
            }
            j += 1;
        }
        PathIndex { keys, vals }
    }

    fn lookup(&self, tracks: Ghost<Seq<Track>>, p: &str) -> (r: Option<usize>)
        requires
            self.indexes(tracks@),
        ensures
            r == last_with_path(tracks@, p@, tracks@.len() as int),
    {
        match crate::order::search_sorted(&self.keys, p) {
            Ok(pos) => Some(self.vals[pos]),
            Err(pos) => {
                proof {
                    if last_with_path(tracks@, p@, tracks@.len() as int) is Some {
                        assert(crate::order::views(self.keys@).contains(p@));
                        let m = choose|m: int| 0 <= m < self.keys@.len() && crate::order::views(self.keys@)[m] == p@;
                        crate::order::lemma_lex_irreflexive(p@);
                        if m < pos {
                            assert(crate::order::lex_lt(crate::order::views(self.keys@)[m], p@));
                        } else {
                            assert(crate::order::lex_lt(p@, crate::order::views(self.keys@)[m]));
                        }
                    }
                }
                None
            },
        }
    }
}

/// A `last_with_path` result is an index below the bound with that path.
proof fn lemma_last_with_path_valid(tracks: Seq<Track>, p: Seq<char>, n: int)
    requires
        0 <= n <= tracks.len(),
        n <= usize::MAX,
    ensures
        match last_with_path(tracks, p, n) {
            Some(j) => j < n && tracks[j as int].path@ == p,
            None => true,
        },
    decreases n,
{
    if n > 0 {
        lemma_last_with_path_valid(tracks, p, n - 1);
    }
}

/// Carries old library indices over to the new library.
fn remap(old_lib: &Vec<Track>, index: &PathIndex, new_lib: Ghost<Seq<Track>>, idxs: &Vec<usize>) -> (r: (Vec<usize>, Vec<String>))
    requires
        index.indexes(new_lib@),
        new_lib@.len() <= usize::MAX,
    ensures
        r.0@ == remap_indices(old_lib@, new_lib@, idxs@),
        forall|k: int| 0 <= k < r.0@.len() ==> #[trigger] r.0@[k] < new_lib@.len(),
        crate::persist::string_views(r.1@) == lost_paths(old_lib@, new_lib@, idxs@),
{
    let mut r: Vec<usize> = Vec::new();
    let mut lost: Vec<String> = Vec::new();
    let mut i: usize = 0;
    while i < idxs.len()
        invariant
            i <= idxs@.len(),
            index.indexes(new_lib@),
            new_lib@.len() <= usize::MAX,
            r@ == remap_indices(old_lib@, new_lib@, idxs@.take(i as int)),
            forall|k: int| 0 <= k < r@.len() ==> #[trigger] r@[k] < new_lib@.len(),
            crate::persist::string_views(lost@) == lost_paths(old_lib@, new_lib@, idxs@.take(i as int)),
        decreases idxs@.len() - i,
    {
        assert(idxs@.take(i + 1).drop_last() =~= idxs@.take(i as int));
        let old_idx = idxs[i];
        if old_idx < old_lib.len() {
            let found = index.lookup(new_lib, old_lib[old_idx].path.as_str());
            proof {
                lemma_last_with_path_valid(new_lib@, old_lib@[old_idx as int].path@, new_lib@.len() as int);
            }
            match found {
                Some(j) => {
                    r.push(j);
                },
                None => {
                    let ghost before = lost@;
                    lost.push(old_lib[old_idx].path.clone());
                    assert(crate::persist::string_views(lost@) =~= crate::persist::string_views(before).push(old_lib@[old_idx as int].path@));
                },
            }
        }
        i += 1;
    }
    assert(idxs@.take(idxs@.len() as int) =~= idxs@);
    (r, lost)
}

/// First position of `x` in `v`.
fn find_position(v: &Vec<usize>, x: usize) -> (r: Option<usize>)
    ensures
        r == position_of(v@, x),
        r matches Some(k) ==> k < v@.len(),
{
    let mut k: usize = 0;
    while k < v.len()
        invariant
            k <= v@.len(),
            forall|m: int| 0 <= m < k ==> v@[m] != x,
        decreases v@.len() - k,
    {
        if v[k] == x {
            assert(v@.contains(x));
            let ghost w = choose|w: usize| w < v@.len() && v@[w as int] == x && forall|m: int| 0 <= m < w ==> v@[m] != x;
            assert(w == k) by {
                if w < k {
                } else if w > k {
                    assert(v@[k as int] == x);
                }
            }
            return Some(k);
        }
        k += 1;
    }
    None
}

/// What swapping in a rescanned library `nl` does to session `a`, giving
/// `b` (see `App::replace_library`).
pub open spec fn library_swap_post(a: App, nl: Seq<Track>, b: App) -> bool {
    let q = remap_indices(a.library.tracks@, nl, a.queue.tracks@);
    &&& b.library.tracks@ == nl
    &&& b.queue.tracks@ == q
    &&& b.queue.current_index == (match a.queue.current_index {
        Some(qi) => if qi < a.queue.tracks@.len() {
            match moved_index(a.library.tracks@, nl, a.queue.tracks@[qi as int]) {
                Some(j) => position_of(q, j),
                None => None,
            }
        } else {
            None
        },
        None => None,
    })
    &&& b.queue.selected_index == (if a.queue.selected_index < last_valid(q.len() as int) { a.queue.selected_index } else { last_valid(q.len() as int) })
    &&& b.queue.scroll_offset == (if a.queue.scroll_offset < last_valid(q.len() as int) { a.queue.scroll_offset } else { last_valid(q.len() as int) })
    &&& b.playlists@.len() == a.playlists@.len()
    &&& forall|k: int| 0 <= k < a.playlists@.len() ==> {
        &&& (#[trigger] b.playlists@[k]).tracks@ == remap_indices(a.library.tracks@, nl, a.playlists@[k].tracks@)
        &&& b.playlists@[k].name == a.playlists@[k].name
        &&& crate::persist::string_views(b.playlists@[k].missing@) == crate::persist::string_views(a.playlists@[k].missing@)
            + lost_paths(a.library.tracks@, nl, a.playlists@[k].tracks@)
    }
    &&& a.search_query@.len() > 0 ==> b.search_results@ == crate::library::indices_where(
        nl, crate::library::query_pred(a.search_query@), nl.len() as int)
    &&& a.search_query@.len() == 0 ==> b.search_results@ == a.search_results@
    &&& b.sync_state == SyncState::Idle
    &&& b.should_quit == a.should_quit && b.tab == a.tab && b.focus == a.focus
    &&& b.playback == a.playback && b.track_just_changed == a.track_just_changed
    &&& b.music_dir@ == a.music_dir@ && b.search_query@ == a.search_query@
    &&& b.search_mode == a.search_mode && b.initial_scan_complete == a.initial_scan_complete
}

impl App {
    /// Swaps in a rescanned library, carrying the queue, the playing entry
    /// and the playlists over by path: queue entries whose track is gone are
    /// dropped, playlist entries whose track is gone keep their path among
    /// the playlist's missing ones, the current entry follows its track if it
    /// is still queued,
    /// and the selection and scroll are clamped to the new queue. An open
    /// search is rerun against the new library.
    pub fn replace_library(&mut self, new_lib: Library)
        requires
            old(self).wf(),
        ensures
            final(self).wf(),
            library_swap_post(*old(self), new_lib.tracks@, *final(self)),
    {
        let ghost a = *self;
        let ghost nl = new_lib.tracks@;
        let index = PathIndex::build(&new_lib.tracks);
        assert(nl.len() == new_lib.tracks.len());
        let (new_queue, _) = remap(&self.library.tracks, &index, Ghost(nl), &self.queue.tracks);
        let new_current: Option<usize> = match self.queue.current_index {
            Some(qi) => {
                if qi < self.queue.tracks.len() {
                    let ti = self.queue.tracks[qi];
                    if ti < self.library.tracks.len() {
                        match index.lookup(Ghost(nl), self.library.tracks[ti].path.as_str()) {
                            Some(j) => find_position(&new_queue, j),
                            None => None,
                        }
                    } else {
                        None
                    }
                } else {
                    None
                }
            },
            None => None,
        };
        let len = new_queue.len();
        let last = if len > 0 { len - 1 } else { 0 };
        self.queue.tracks = new_queue;
        self.queue.current_index = new_current;
        if self.queue.selected_index > last {
            self.queue.selected_index = last;
        }
        if self.queue.scroll_offset > last {
            self.queue.scroll_offset = last;
        }
        let mut pls: Vec<Playlist> = Vec::new();
        std::mem::swap(&mut pls, &mut self.playlists);
        let mut k: usize = 0;
        while k < pls.len()
            invariant
                k <= pls@.len(),
                pls@.len() == a.playlists@.len(),
                self.library.tracks@ == a.library.tracks@,
                index.indexes(nl),
                nl.len() <= usize::MAX,
                forall|m: int| k <= m < a.playlists@.len() ==> #[trigger] pls@[m] == a.playlists@[m],
                forall|m: int| 0 <= m < k ==> {
                    &&& (#[trigger] pls@[m]).tracks@ == remap_indices(a.library.tracks@, nl, a.playlists@[m].tracks@)
                    &&& pls@[m].name == a.playlists@[m].name
                    &&& crate::persist::string_views(pls@[m].missing@) == crate::persist::string_views(a.playlists@[m].missing@)
                        + lost_paths(a.library.tracks@, nl, a.playlists@[m].tracks@)
                },
            decreases pls@.len() - k,
        {
            let ghost before = pls@;
            let mut pl = pls.remove(k);
            let (tracks, mut lost) = remap(&self.library.tracks, &index, Ghost(nl), &pl.tracks);
            let ghost old_missing = pl.missing@;
            pl.tracks = tracks;
            pl.missing.append(&mut lost);
            assert(crate::persist::string_views(pl.missing@) =~= crate::persist::string_views(old_missing)
                + lost_paths(a.library.tracks@, nl, a.playlists@[k as int].tracks@));
            pls.insert(k, pl);
            assert(pls@ =~= before.update(k as int, pls@[k as int]));
            k += 1;
        }
        self.playlists = pls;
        if !self.search_query.as_str().is_empty() {
            self.search_results = new_lib.search(self.search_query.as_str());
        }
        self.library = new_lib;
        self.sync_state = SyncState::Idle;
    }
}

} // verus!
