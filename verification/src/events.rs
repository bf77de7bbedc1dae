//! The event loop's decisions, one event at a time: what a key does while
//! the splash is up or the queue has focus, what a tick, a new library or an
//! audio report changes, and how a saved session is restored at startup and
//! captured at exit. The loop itself, which waits for events and carries out
//! effects, runs outside the library.

use vstd::prelude::*;
use crate::geometry::{Rect, spec_layout_areas, sane_pane_widths, widths_sane, DEFAULT_PANE_WIDTHS, sat_sub};
use crate::input::KeyEvent;
use crate::keys::{Link, key_ok, key_post, update_queue_selection};
use crate::library::{Library, search_result};
use crate::mouse::hover_refresh_post;
use crate::persist::{SavedPlaylist, restore_playlists, snapshot_playlists, sane_right_split, resolved, string_views, unresolved, index_paths};
use crate::session::{App, AppAction, Effect, action_ok, action_post};
use crate::state::{PlayState, FocusedPane, RepeatMode, InfoView, Playlist, repeat_from_label, info_view_from_label, repeat_label, info_view_label};
use crate::ui::{Ui, skip_splash};

verus! {

/// What the audio engine reports.
#[derive(Debug, Clone)]
pub enum AudioEvent {
    PositionUpdate { position_ms: u64, duration_ms: u64 },
    TrackFinished,
    TrackError(String),
    DeviceError(String),
    Playing,
    Paused,
    Stopped,
}

/// The play state an audio report sets directly, if any.
pub open spec fn reported_state(ev: AudioEvent) -> Option<PlayState> {
    match ev {
        AudioEvent::DeviceError(_) => Some(PlayState::Stopped),
        AudioEvent::Playing => Some(PlayState::Playing),
        AudioEvent::Paused => Some(PlayState::Paused),
        AudioEvent::Stopped => Some(PlayState::Stopped),
        _ => None,
    }
}

/// An audio report: a position update and the end of a track become
/// actions for the session; the engine's own state reports set the play
/// state; a track that failed to open changes nothing.
pub fn on_audio_event(app: &mut App, ev: AudioEvent) -> (r: Option<AppAction>)
    ensures
        match reported_state(ev) {
            Some(s) => *final(app) == (App { playback: crate::state::PlaybackState { state: s, ..old(app).playback }, ..*old(app) }),
            None => *final(app) == *old(app),
        },
        r == (match ev {
            AudioEvent::PositionUpdate { position_ms, duration_ms } => Some(AppAction::UpdatePosition { position_ms, duration_ms }),
            AudioEvent::TrackFinished => Some(AppAction::TrackFinished),
            _ => None::<AppAction>,
        }),
        old(app).wf() ==> final(app).wf(),
{
    match ev {
        AudioEvent::PositionUpdate { position_ms, duration_ms } => Some(AppAction::UpdatePosition { position_ms, duration_ms }),
        AudioEvent::TrackFinished => Some(AppAction::TrackFinished),
        AudioEvent::TrackError(_) => None,
        AudioEvent::DeviceError(_) => {
            app.playback.state = PlayState::Stopped;
            None
        },
        AudioEvent::Playing => {
            app.playback.state = PlayState::Playing;
            None
        },
        AudioEvent::Paused => {
            app.playback.state = PlayState::Paused;
            None
        },
        AudioEvent::Stopped => {
            app.playback.state = PlayState::Stopped;
            None
        },
    }
}

/// Whether the session can take `action`: tracks it queues name only
/// library tracks.
pub fn action_allowed(app: &App, action: &AppAction) -> (r: bool)
    ensures
        r == action_ok(*app, *action),
{
    match action {
        AppAction::AddToQueue(v) => {
            assert(*action == AppAction::AddToQueue(*v));
            let n = app.library.tracks.len();
            let mut i: usize = 0;
            while i < v.len()
                invariant
                    i <= v@.len(),
                    n == app.library.tracks@.len(),
                    *action == AppAction::AddToQueue(*v),
                    forall|k: int| 0 <= k < i ==> #[trigger] v@[k] < n,
                decreases v@.len() - i,
            {
                if v[i] >= n {
                    assert(!(v@[i as int] < n));
                    return false;
                }
                i += 1;
            }
            true
        },
        _ => true,
    }
}

/// The key goes to the session's queue selection first: the queue has
/// focus and nothing else claims the key.
pub open spec fn queue_takes_key(app: App, ui: Ui) -> bool {
    &&& app.focus == FocusedPane::Playlist
    &&& !app.search_mode
    &&& !ui.show_search_modal && !ui.show_help_modal && !ui.show_playlist_modal
    &&& !ui.resize_mode && !ui.chord_pending
}

impl Ui {
    /// A key press: during the splash it only skips ahead to the fade-out;
    /// otherwise, with the queue focused, j/k move the queue selection, and
    /// then the key is handled as `key_post` says.
    pub fn on_key(&mut self, app: &mut App, key: KeyEvent, now: u64) -> (r: (Vec<AppAction>, Option<Link>))
        requires
            key_ok(*old(self), *old(app)),
        ensures
            final(self).wf(),
            if old(self).show_splash {
                &&& *final(app) == *old(app)
                &&& r.0@.len() == 0 && r.1 is None
                &&& *final(self) == skip_splash(*old(self), now)
            } else {
                &&& queue_takes_key(*old(app), *old(self)) ==> {
                    let o = *old(app);
                    let n = o.queue.tracks@.len();
                    let s = o.queue.selected_index;
                    let new_sel = if n == 0 {
                        s
                    } else if crate::input::is_down(key.code) && s < n - 1 {
                        (s + 1) as usize
                    } else if crate::input::is_up(key.code) && s > 0 {
                        (s - 1) as usize
                    } else {
                        s
                    };
                    *final(app) == (App { queue: crate::state::QueueState { selected_index: new_sel, ..o.queue }, ..o })
                }
                &&& !queue_takes_key(*old(app), *old(self)) ==> *final(app) == *old(app)
                &&& key_post(*old(self), *final(app), key, *final(self), r.0@, r.1)
            },
    {
        if self.show_splash {
            self.begin_splash_fade_out(now);
            return (Vec::new(), None);
        }
        if app.focus == FocusedPane::Playlist && !app.search_mode && !self.show_search_modal && !self.show_help_modal
            && !self.show_playlist_modal && !self.resize_mode && !self.chord_pending {
            update_queue_selection(app, key);
        }
        self.handle_key_event(key, app)
    }

    /// A clock tick: the splash ends when its time is up, and the hover
    /// highlighting is redone from the last pointer position.
    pub fn on_tick(&mut self, app: &App, now: u64, terminal_area: Rect)
        requires
            old(self).wf(),
        ensures
            final(self).wf(),
            ({
                let o = *old(self);
                let ends = o.show_splash && o.splash_start is Some
                    && sat_sub(now as int, o.splash_start->0 as int) >= crate::ui::SPLASH_END_MS;
                let t = if ends { Ui { show_splash: false, splash_start: None, ..o } } else { o };
                if t.show_about_modal || t.show_help_modal || t.show_search_modal || t.show_playlist_modal
                    || t.mouse_pos is None {
                    *final(self) == t
                } else {
                    let (px, py) = t.mouse_pos->0;
                    hover_refresh_post(t, *app, spec_layout_areas(terminal_area, t.pane_widths, t.right_split), px, py,
                        *final(self))
                }
            }),
    {
        self.splash_tick(now);
        self.refresh_hover(app, terminal_area);
    }

    /// A rescanned library arrives: the session carries its queue and
    /// playlists over, the directory browser is relisted, the lists are
    /// clamped to their new lengths, and an open search is rerun.
    pub fn on_library_ready(&mut self, app: &mut App, lib: Library)
        requires
            old(self).wf(),
            old(app).wf(),
        ensures
            final(self).wf(),
            final(app).wf(),
            crate::session::library_swap_post(*old(app), lib.tracks@, *final(app)),
            final(self).dir_browser_pane.rows() == crate::panes::dir_rows(*final(app), old(self).dir_browser_pane.current_dir@),
            final(self).dir_browser_pane.selected == 0,
            final(self).library_pane.selected == 0,
            old(self).show_search_modal ==> final(self).search_modal_results@ == search_result(lib.tracks@, old(self).search_modal_input@),
            !old(self).show_search_modal ==> final(self).search_modal_results@.len() == 0,
    {
        app.replace_library(lib);
        self.refresh_dir_browser(app);
        self.clamp_selections(app);
        self.refresh_search_results(app);
    }
}

/// The settings a session saves between runs. The volume is in percent.
#[derive(Debug, Clone)]
pub struct SavedSettings {
    pub volume: u32,
    pub shuffle: bool,
    pub repeat: String,
    pub pane_widths: [u16; 3],
    pub playlists: Vec<SavedPlaylist>,
    pub info_view: String,
    pub right_split: u16,
}

/// After the first scan: the whole library is queued (in place of
/// whatever the queue held), then the saved
/// settings are applied — volume (at most 100), shuffle, repeat, pane
/// widths if sane (else the defaults), the info view, the right split
/// (kept between 10 and 90) — and the saved playlists are restored against
/// the library. Returns what the audio engine must be told.
pub fn restore_session(app: &mut App, ui: &mut Ui, saved: Option<SavedSettings>) -> (eff: Vec<Effect>)
    requires
        old(app).wf(),
        old(ui).wf(),
    ensures
        final(app).wf(),
        final(ui).wf(),
        final(app).library.tracks@ == old(app).library.tracks@,
        final(app).queue.tracks@ == Seq::new(old(app).library.tracks@.len(), |i: int| i as usize),
        final(app).queue.current_index == (if old(app).library.tracks@.len() > 0 { Some(0usize) } else { None }),
        match saved {
            None => *final(ui) == *old(ui) && final(app).playlists@ == old(app).playlists@
                && final(app).playback == old(app).playback,
            Some(s) => {
                &&& final(app).playback.volume == (if s.volume > 100 { 100 } else { s.volume })
                &&& final(app).playback.shuffle == s.shuffle
                &&& final(app).playback.repeat == repeat_from_label(s.repeat@)
                &&& final(ui).pane_widths == (if widths_sane(s.pane_widths) { s.pane_widths } else { DEFAULT_PANE_WIDTHS })
                &&& final(ui).info_view == info_view_from_label(s.info_view@)
                &&& final(ui).right_split == (if s.right_split < 10 { 10 } else if s.right_split > 90 { 90 } else { s.right_split })
                &&& *final(ui) == (Ui {
                    pane_widths: final(ui).pane_widths,
                    info_view: final(ui).info_view,
                    right_split: final(ui).right_split,
                    ..*old(ui)
                })
                &&& s.playlists@.len() == 0 ==> final(app).playlists@.len() == 1 && final(app).playlists@[0].name@ == "Bookmarks"@
                    && final(app).playlists@[0].tracks@.len() == 0
                &&& s.playlists@.len() > 0 ==> final(app).playlists@.len() == s.playlists@.len()
                    && forall|k: int| 0 <= k < s.playlists@.len() ==> {
                        &&& (#[trigger] final(app).playlists@[k]).name@ == s.playlists@[k].name@
                        &&& final(app).playlists@[k].tracks@ == resolved(old(app).library.tracks@, string_views(s.playlists@[k].tracks@))
                        &&& string_views(final(app).playlists@[k].missing@) == unresolved(old(app).library.tracks@, string_views(s.playlists@[k].tracks@))
                    }
            },
        },
{
    let n = app.library.tracks.len();
    let mut all: Vec<usize> = Vec::new();
    let mut i: usize = 0;
    while i < n
        invariant
            i <= n,
            n == app.library.tracks@.len(),
            all@ == Seq::new(i as nat, |k: int| k as usize),
        decreases n - i,
    {
        all.push(i);
        assert(all@ =~= Seq::new((i + 1) as nat, |k: int| k as usize));
        i += 1;
    }
    let ghost queued = all@;
    let mut eff = app.handle_action(AppAction::ClearQueue);
    proof {
        reveal(crate::session::replace_queue_post);
        assert(crate::session::playing_entry(*app) is None);
    }
    let mut more_eff = app.handle_action(AppAction::AddToQueue(all));
    proof {
        reveal(crate::session::replace_queue_post);
    }
    eff.append(&mut more_eff);
    assert(app.queue.tracks@ == queued);
    let s = match saved {
        Some(s) => s,
        None => {
            return eff;
        },
    };
    app.playback.volume = if s.volume > 100 { 100 } else { s.volume };
    app.playback.shuffle = s.shuffle;
    app.playback.repeat = RepeatMode::from_label(s.repeat.as_str());
    let vol = app.playback.volume;
    let more = app.handle_action(AppAction::SetVolume(vol));
    proof {
        reveal(crate::session::volume_post);
    }
    let mut more = more;
    eff.append(&mut more);
    ui.pane_widths = sane_pane_widths(s.pane_widths);
    ui.info_view = InfoView::from_label(s.info_view.as_str());
    ui.right_split = sane_right_split(s.right_split);
    app.playlists = restore_playlists(&s.playlists, &app.library);
    eff
}

/// The settings to save at exit: the playback settings, the layout, and
/// every playlist with its tracks' paths followed by the paths it could not
/// resolve.
pub fn session_snapshot(app: &App, ui: &Ui) -> (s: SavedSettings)
    ensures
        s.volume == app.playback.volume,
        s.shuffle == app.playback.shuffle,
        s.repeat@ == repeat_label(app.playback.repeat),
        s.pane_widths == ui.pane_widths,
        s.info_view@ == info_view_label(ui.info_view),
        s.right_split == ui.right_split,
        s.playlists@.len() == app.playlists@.len(),
        forall|k: int| 0 <= k < app.playlists@.len() ==> {
            &&& (#[trigger] s.playlists@[k]).name@ == app.playlists@[k].name@
            &&& string_views(s.playlists@[k].tracks@) == index_paths(app.library.tracks@, app.playlists@[k].tracks@)
                + string_views(app.playlists@[k].missing@)
        },
{
    SavedSettings {
        volume: app.playback.volume,
        shuffle: app.playback.shuffle,
        repeat: String::from_str(app.playback.repeat.as_str()),
        pane_widths: ui.pane_widths,
        playlists: snapshot_playlists(&app.playlists, &app.library),
        info_view: String::from_str(ui.info_view.as_str()),
        right_split: ui.right_split,
    }
}

} // verus!
