//! What a key press does: modals take keys first (about, help, playlists,
//! search), then the Ctrl+E chord and resize mode, then the global
//! bindings, and whatever is left goes to the focused pane. The result is
//! the actions for the session, and possibly a link to open.

use vstd::prelude::*;
use crate::geometry::{widths_sane, resize_pane, spec_resize, clamp_int, spec_list_slot, list_slot};
use crate::input::{
    KeyCode, KeyEvent, MOD_CONTROL, MOD_SHIFT, is_down, is_up, key_is_down, key_is_up, key_is_char,
};
use crate::library::search_result;
use crate::library_pane::{LibraryPane, library_activation};
use crate::list_pane::{ListPane, activation, listing_len, row_count, activate};
use crate::panes::{DirBrowserPane, dir_key_post, dir_key_queue, queue_key_action};
use crate::session::{App, AppAction};
use crate::state::{FocusedPane, Tab, tab_at, QueueState};
use crate::strings::{spec_trim, trim, pop_char, push_char};
use crate::ui::{Ui, PlaylistModalMode};

verus! {

/// A page the about modal can open in a browser.
#[derive(Debug, Clone, Copy, PartialEq, Eq, Structural)]
pub enum Link {
    Repository,
    Sponsors,
}

impl Link {
    /// The web address the link opens.
    pub fn url(self) -> (s: &'static str)
        ensures
            s@ == (match self {
                Link::Repository => "https://github.com/sqzer-x/ommp"@,
                Link::Sponsors => "https://github.com/sponsors/sqzer-x"@,
            }),
    {
        match self {
            Link::Repository => "https://github.com/sqzer-x/ommp",
            Link::Sponsors => "https://github.com/sponsors/sqzer-x",
        }
    }
}

/// `a` queues exactly `t`.
pub open spec fn queues(a: AppAction, t: Seq<usize>) -> bool {
    a matches AppAction::AddToQueue(v) && v@ == t
}

/// The library track playing, if any.
pub open spec fn current_library_track(app: App) -> Option<usize> {
    match app.queue.current_index {
        Some(qi) => if qi < app.queue.tracks@.len() { Some(app.queue.tracks@[qi as int]) } else { None },
        None => None,
    }
}

// ------------------------------------------------------------- modal keys

/// About modal: Esc or q closes it, g and s open the project's pages.
pub open spec fn about_post(o: Ui, code: KeyCode, f: Ui, link: Option<Link>) -> bool {
    if code == KeyCode::Esc || code == KeyCode::Char('q') {
        f == (Ui { show_about_modal: false, ..o }) && link is None
    } else if code == KeyCode::Char('g') {
        f == o && link == Some(Link::Repository)
    } else if code == KeyCode::Char('s') {
        f == o && link == Some(Link::Sponsors)
    } else {
        f == o && link is None
    }
}

/// Help modal: Esc or q closes it.
pub open spec fn help_post(o: Ui, code: KeyCode, f: Ui) -> bool {
    if code == KeyCode::Esc || code == KeyCode::Char('q') {
        f == (Ui { show_help_modal: false, ..o })
    } else {
        f == o
    }
}

/// Naming a playlist: Esc cancels, Enter confirms a name that is not blank
/// once trimmed (creating or renaming), Backspace and characters edit.
pub open spec fn edit_post(o: Ui, code: KeyCode, f: Ui, actions: Seq<AppAction>) -> bool {
    let input = o.playlist_modal_input@;
    let name = spec_trim(input);
    let rest = Ui { playlist_modal_mode: f.playlist_modal_mode, playlist_modal_input: f.playlist_modal_input, ..o };
    &&& f == rest
    &&& if code == KeyCode::Esc {
        f.playlist_modal_mode == PlaylistModalMode::List && f.playlist_modal_input@.len() == 0 && actions.len() == 0
    } else if code == KeyCode::Enter {
        &&& f.playlist_modal_mode == PlaylistModalMode::List && f.playlist_modal_input@.len() == 0
        &&& if name.len() == 0 {
            actions.len() == 0
        } else if o.playlist_modal_mode == PlaylistModalMode::Create {
            actions.len() == 1 && (actions[0] matches AppAction::CreatePlaylist(n) && n@ == name)
        } else {
            actions.len() == 1 && (actions[0] matches AppAction::RenamePlaylist { idx, name: n }
                && idx == o.playlist_modal_selected && n@ == name)
        }
    } else if code == KeyCode::Backspace {
        &&& f.playlist_modal_mode == o.playlist_modal_mode
        &&& f.playlist_modal_input@ == (if input.len() > 0 { input.drop_last() } else { input })
        &&& actions.len() == 0
    } else if code is Char {
        &&& f.playlist_modal_mode == o.playlist_modal_mode
        &&& f.playlist_modal_input@ == input.push(code->Char_0)
        &&& actions.len() == 0
    } else {
        f.playlist_modal_mode == o.playlist_modal_mode && f.playlist_modal_input@ == input && actions.len() == 0
    }
}

/// The playlist list: Esc closes, j/k move, Enter adds the playing track to
/// the selected playlist or takes it out, a starts a new playlist, d
/// deletes the selected one, r renames it.
pub open spec fn list_post(o: Ui, app: App, code: KeyCode, f: Ui, actions: Seq<AppAction>) -> bool {
    let n = app.playlists@.len();
    let sel = o.playlist_modal_selected;
    if code == KeyCode::Esc {
        f == (Ui { show_playlist_modal: false, playlist_modal_selected: 0, ..o }) && actions.len() == 0
    } else if is_up(code) {
        f == (Ui { playlist_modal_selected: if sel > 0 { (sel - 1) as usize } else { sel }, ..o }) && actions.len() == 0
    } else if is_down(code) {
        f == (Ui { playlist_modal_selected: if n > 0 && sel < n - 1 { (sel + 1) as usize } else { sel }, ..o })
            && actions.len() == 0
    } else if code == KeyCode::Enter {
        &&& f == o
        &&& match current_library_track(app) {
            Some(t) => if sel < n {
                if app.playlists@[sel as int].tracks@.contains(t) {
                    actions == seq![AppAction::RemoveFromPlaylist { playlist_idx: sel, track_idx: t }]
                } else {
                    actions == seq![AppAction::AddToPlaylist { playlist_idx: sel, track_idx: t }]
                }
            } else {
                actions.len() == 0
            },
            None => actions.len() == 0,
        }
    } else if code == KeyCode::Char('a') {
        f == (Ui { playlist_modal_mode: PlaylistModalMode::Create, playlist_modal_input: f.playlist_modal_input, ..o })
            && f.playlist_modal_input@.len() == 0 && actions.len() == 0
    } else if code == KeyCode::Char('d') {
        if n > 0 {
            f == (Ui { playlist_modal_selected: if sel > 0 && sel >= n - 1 { (sel - 1) as usize } else { sel }, ..o })
                && actions == seq![AppAction::DeletePlaylist(sel)]
        } else {
            f == o && actions.len() == 0
        }
    } else if code == KeyCode::Char('r') && n > 0 {
        f == (Ui { playlist_modal_mode: PlaylistModalMode::Rename, playlist_modal_input: f.playlist_modal_input, ..o })
            && f.playlist_modal_input@ == app.playlists@[sel as int].name@ && actions.len() == 0
    } else {
        f == o && actions.len() == 0
    }
}

/// The search modal closed and emptied.
pub open spec fn search_closed(o: Ui, f: Ui) -> bool {
    &&& f == (Ui {
        show_search_modal: false,
        search_modal_input: f.search_modal_input,
        search_modal_results: f.search_modal_results,
        search_modal_selected: 0,
        search_modal_scroll: 0,
        ..o
    })
    &&& f.search_modal_input@.len() == 0
    &&& f.search_modal_results@.len() == 0
}

/// The search modal with a new query, its results, back at the top.
pub open spec fn search_requeried(o: Ui, app: App, q: Seq<char>, f: Ui) -> bool {
    &&& f == (Ui {
        search_modal_input: f.search_modal_input,
        search_modal_results: f.search_modal_results,
        search_modal_selected: 0,
        search_modal_scroll: 0,
        ..o
    })
    &&& f.search_modal_input@ == q
    &&& f.search_modal_results@ == search_result(app.library.tracks@, q)
}

/// Search modal: Esc closes, Enter queues the selected result and closes,
/// Up/Shift-Tab and Down/Tab move the selection and keep it in view,
/// typing and Backspace edit the query and search again.
pub open spec fn search_post(o: Ui, app: App, code: KeyCode, f: Ui, actions: Seq<AppAction>) -> bool {
    let results = o.search_modal_results@;
    let sel = o.search_modal_selected;
    let scroll = o.search_modal_scroll;
    let h = o.search_modal_result_height;
    let input = o.search_modal_input@;
    if code == KeyCode::Esc {
        search_closed(o, f) && actions.len() == 0
    } else if code == KeyCode::Enter {
        if results.len() > 0 {
            search_closed(o, f) && actions.len() == 1 && queues(actions[0], seq![results[sel as int]])
        } else {
            f == o && actions.len() == 0
        }
    } else if code == KeyCode::Up || code == KeyCode::BackTab {
        &&& actions.len() == 0
        &&& if sel > 0 {
            f == (Ui {
                search_modal_selected: (sel - 1) as usize,
                search_modal_scroll: if sel - 1 < scroll { (sel - 1) as usize } else { scroll },
                ..o
            })
        } else {
            f == o
        }
    } else if code == KeyCode::Down || code == KeyCode::Tab {
        &&& actions.len() == 0
        &&& if results.len() > 0 && sel < results.len() - 1 {
            f == (Ui {
                search_modal_selected: (sel + 1) as usize,
                search_modal_scroll: if h > 0 && sel + 1 >= scroll + h { (sel + 1 - h + 1) as usize } else { scroll },
                ..o
            })
        } else {
            f == o
        }
    } else if code == KeyCode::Backspace {
        search_requeried(o, app, if input.len() > 0 { input.drop_last() } else { input }, f) && actions.len() == 0
    } else if code is Char {
        search_requeried(o, app, input.push(code->Char_0), f) && actions.len() == 0
    } else {
        f == o && actions.len() == 0
    }
}

/// The key after Ctrl+E: s opens search, h help, i about, r toggles resize
/// mode, l rescans the library. The chord ends either way.
pub open spec fn chord_post(o: Ui, code: KeyCode, f: Ui, actions: Seq<AppAction>) -> bool {
    let c = Ui { chord_pending: false, ..o };
    if code == KeyCode::Char('s') {
        f == (Ui { show_search_modal: true, ..c }) && actions.len() == 0
    } else if code == KeyCode::Char('h') {
        f == (Ui { show_help_modal: true, ..c }) && actions.len() == 0
    } else if code == KeyCode::Char('r') {
        f == (Ui { resize_mode: !o.resize_mode, ..c }) && actions.len() == 0
    } else if code == KeyCode::Char('i') {
        f == (Ui { show_about_modal: true, ..c }) && actions.len() == 0
    } else if code == KeyCode::Char('l') {
        f == c && actions == seq![AppAction::LibrarySync]
    } else {
        f == c && actions.len() == 0
    }
}

/// Resize mode: h/l or Left/Right resize the focused pane by two points,
/// k/j or Up/Down move the info|lyrics split by three, Esc or Enter leave
/// the mode, q leaves and quits.
pub open spec fn resize_post(o: Ui, app: App, code: KeyCode, f: Ui, actions: Seq<AppAction>) -> bool {
    if code == KeyCode::Char('h') || code == KeyCode::Left {
        f == (Ui { pane_widths: spec_resize(o.pane_widths, app.focus, -2), ..o }) && actions.len() == 0
    } else if code == KeyCode::Char('l') || code == KeyCode::Right {
        f == (Ui { pane_widths: spec_resize(o.pane_widths, app.focus, 2), ..o }) && actions.len() == 0
    } else if is_up(code) {
        f == (Ui { right_split: clamp_int(o.right_split - 3, 10, 90) as u16, ..o }) && actions.len() == 0
    } else if is_down(code) {
        f == (Ui { right_split: clamp_int(o.right_split + 3, 10, 90) as u16, ..o }) && actions.len() == 0
    } else if code == KeyCode::Esc || code == KeyCode::Enter {
        f == (Ui { resize_mode: false, ..o }) && actions.len() == 0
    } else if code == KeyCode::Char('q') {
        f == (Ui { resize_mode: false, ..o }) && actions == seq![AppAction::Quit]
    } else {
        f == o && actions.len() == 0
    }
}

// ------------------------------------------------------------ global keys

/// The action a global binding stands for: q (or Ctrl+C) quits, space
/// pauses, n / Shift+N skip, + = - set the volume, Left/Right seek, s
/// shuffles, r cycles repeat, Tab / Shift+BackTab / h / l move focus, and
/// 1 to 7 switch tabs. (b and p are global too but act on the interface.)
pub open spec fn global_action(m: u8, code: KeyCode) -> Option<AppAction> {
    if code == KeyCode::Char('q') {
        Some(AppAction::Quit)
    } else if m == MOD_CONTROL && code == KeyCode::Char('c') {
        Some(AppAction::Quit)
    } else if code == KeyCode::Char(' ') {
        Some(AppAction::PauseResume)
    } else if code == KeyCode::Char('n') {
        Some(AppAction::NextTrack)
    } else if m == MOD_SHIFT && code == KeyCode::Char('N') {
        Some(AppAction::PrevTrack)
    } else if code == KeyCode::Char('+') || code == KeyCode::Char('=') {
        Some(AppAction::VolumeUp)
    } else if code == KeyCode::Char('-') {
        Some(AppAction::VolumeDown)
    } else if code == KeyCode::Right {
        Some(AppAction::SeekForward)
    } else if code == KeyCode::Left {
        Some(AppAction::SeekBackward)
    } else if code == KeyCode::Char('s') {
        Some(AppAction::ToggleShuffle)
    } else if code == KeyCode::Char('r') {
        Some(AppAction::CycleRepeat)
    } else if code == KeyCode::Tab {
        Some(AppAction::FocusNext)
    } else if m == MOD_SHIFT && code == KeyCode::BackTab {
        Some(AppAction::FocusPrev)
    } else if code is Char && '1' <= code->Char_0 <= '7' {
        Some(AppAction::SwitchTab(tab_at(code->Char_0 as int - '1' as int)))
    } else if code == KeyCode::Char('h') {
        Some(AppAction::FocusPrev)
    } else if code == KeyCode::Char('l') {
        Some(AppAction::FocusNext)
    } else {
        None
    }
}

/// The key is a global binding.
pub open spec fn is_global(m: u8, code: KeyCode) -> bool {
    global_action(m, code) is Some || code == KeyCode::Char('b') || code == KeyCode::Char('p')
}

/// A global binding: b opens the playlist modal (when a track is playing),
/// p flips the info pane, the others emit their action.
pub open spec fn global_post(o: Ui, app: App, m: u8, code: KeyCode, f: Ui, actions: Seq<AppAction>) -> bool {
    match global_action(m, code) {
        Some(a) => f == o && actions == seq![a],
        None => if code == KeyCode::Char('b') {
            actions.len() == 0 && f == (if app.queue.current_index is Some {
                Ui { show_playlist_modal: true, playlist_modal_selected: 0, ..o }
            } else {
                o
            })
        } else {
            actions.len() == 0 && f == (Ui { info_view: o.info_view.toggled(), ..o })
        },
    }
}

// -------------------------------------------------------------- pane keys

/// The tracks the focused pane asks to queue for a key.
pub open spec fn pane_queue(o: Ui, app: App, code: KeyCode) -> Option<Seq<usize>> {
    match app.focus {
        FocusedPane::Library => match app.tab {
            Tab::Queue => if code == KeyCode::Enter { library_activation(app, o.library_pane.selected as int) } else { None },
            Tab::Directories => dir_key_queue(o.dir_browser_pane, code),
            _ => if code == KeyCode::Enter && listing_len(app, app.tab) > 0 {
                activation(app, app.tab, o.list_panes@[spec_list_slot(app.tab) as int].selected as int)
            } else {
                None
            },
        },
        _ => None,
    }
}

/// The queue pane's own action for a key (j/k are the session's).
pub open spec fn pane_other(app: App, code: KeyCode) -> Option<AppAction> {
    if app.focus == FocusedPane::Playlist && !is_down(code) && !is_up(code) {
        queue_key_action(code, app.queue.tracks@.len(), app.queue.selected_index)
    } else {
        None
    }
}

/// Only the focused pane changes, as its own key handling says.
pub open spec fn pane_state_post(o: Ui, app: App, code: KeyCode, f: Ui) -> bool {
    match app.focus {
        FocusedPane::Library => match app.tab {
            Tab::Queue => f == (Ui { library_pane: o.library_pane.after_key(code, app), ..o }),
            Tab::Directories => {
                &&& f == (Ui { dir_browser_pane: f.dir_browser_pane, ..o })
                &&& dir_key_post(o.dir_browser_pane, app, code, f.dir_browser_pane)
                &&& f.dir_browser_pane.selection_ok()
            },
            _ => {
                let i = spec_list_slot(app.tab) as int;
                f == (Ui {
                    list_panes: f.list_panes,
                    ..o
                }) && f.list_panes@ == o.list_panes@.update(i, o.list_panes@[i].after_key(code, listing_len(app, app.tab)))
            },
        },
        FocusedPane::Playlist => f == o,
        FocusedPane::Lyrics => f == (Ui { lyrics_pane: f.lyrics_pane, ..o })
            && f.lyrics_pane.scroll_offset == (if is_down(code) {
                crate::panes::u16_sat_add(o.lyrics_pane.scroll_offset, 1)
            } else if is_up(code) {
                crate::panes::u16_sat_sub(o.lyrics_pane.scroll_offset, 1)
            } else if crate::input::is_home(code) {
                0
            } else {
                o.lyrics_pane.scroll_offset
            }),
    }
}

/// The focused pane's answer to a key, with a queueing answer from the
/// library column preceded by moving focus to the queue.
pub open spec fn route_post(o: Ui, app: App, code: KeyCode, f: Ui, actions: Seq<AppAction>) -> bool {
    &&& pane_state_post(o, app, code, f)
    &&& match pane_queue(o, app, code) {
        Some(t) => actions.len() == 2 && actions[0] == AppAction::FocusPane(FocusedPane::Playlist) && queues(actions[1], t),
        None => match pane_other(app, code) {
            Some(a) => actions == seq![a],
            None => actions.len() == 0,
        },
    }
}

/// What a key press does, in priority order. Besides the Ctrl+E chord,
/// Ctrl+S, Ctrl+H and Ctrl+A open search, the key help and the about screen
/// directly, and Ctrl+L rescans the library.
#[verifier::opaque]
pub open spec fn key_post(o: Ui, app: App, key: KeyEvent, f: Ui, actions: Seq<AppAction>, link: Option<Link>) -> bool {
    let code = key.code;
    let m = key.modifiers;
    if o.show_about_modal {
        about_post(o, code, f, link) && actions.len() == 0
    } else if o.show_help_modal {
        help_post(o, code, f) && actions.len() == 0 && link is None
    } else if o.show_playlist_modal {
        link is None && if o.playlist_modal_mode != PlaylistModalMode::List {
            edit_post(o, code, f, actions)
        } else {
            list_post(o, app, code, f, actions)
        }
    } else if o.show_search_modal {
        search_post(o, app, code, f, actions) && link is None
    } else if app.search_mode {
        f == o && actions.len() == 0 && link is None
    } else if o.chord_pending {
        chord_post(o, code, f, actions) && link is None
    } else if m == MOD_CONTROL && code == KeyCode::Char('e') {
        f == (Ui { chord_pending: true, ..o }) && actions.len() == 0 && link is None
    } else if m == MOD_CONTROL && code == KeyCode::Char('s') {
        f == (Ui { show_search_modal: true, ..o }) && actions.len() == 0 && link is None
    } else if m == MOD_CONTROL && code == KeyCode::Char('h') {
        f == (Ui { show_help_modal: true, ..o }) && actions.len() == 0 && link is None
    } else if m == MOD_CONTROL && code == KeyCode::Char('a') {
        f == (Ui { show_about_modal: true, ..o }) && actions.len() == 0 && link is None
    } else if m == MOD_CONTROL && code == KeyCode::Char('l') {
        f == o && actions == seq![AppAction::LibrarySync] && link is None
    } else if o.resize_mode {
        resize_post(o, app, code, f, actions) && link is None
    } else if is_global(m, code) {
        global_post(o, app, m, code, f, actions) && link is None
    } else {
        route_post(o, app, code, f, actions) && link is None
    }
}

/// Inputs on which the key handling is defined: the selections it indexes
/// with are on a row.
pub open spec fn key_ok(o: Ui, app: App) -> bool {
    &&& o.wf()
    &&& o.show_playlist_modal && o.playlist_modal_mode == PlaylistModalMode::List && app.playlists@.len() > 0
        ==> o.playlist_modal_selected < app.playlists@.len()
    &&& o.show_search_modal && o.search_modal_results@.len() > 0 ==> o.search_modal_selected < o.search_modal_results@.len()
}

impl Ui {
    /// Whether `handle_key_event` is defined here: the state is consistent
    /// and the modal selections it indexes with are on a row.
    pub fn ready_for_key(&self, app: &App) -> (r: bool)
        ensures
            r == key_ok(*self, *app),
    {
        self.is_consistent()
            && (!(self.show_playlist_modal && self.playlist_modal_mode == PlaylistModalMode::List && app.playlists.len() > 0)
                || self.playlist_modal_selected < app.playlists.len())
            && (!(self.show_search_modal && self.search_modal_results.len() > 0)
                || self.search_modal_selected < self.search_modal_results.len())
    }

    fn about_key(&mut self, code: KeyCode) -> (link: Option<Link>)
        ensures
            about_post(*old(self), code, *final(self), link),
    {
        if code == KeyCode::Esc || key_is_char(code, 'q') {
            self.show_about_modal = false;
            None
        } else if key_is_char(code, 'g') {
            Some(Link::Repository)
        } else if key_is_char(code, 's') {
            Some(Link::Sponsors)
        } else {
            None
        }
    }

    fn help_key(&mut self, code: KeyCode)
        ensures
            help_post(*old(self), code, *final(self)),
    {
        if code == KeyCode::Esc || key_is_char(code, 'q') {
            self.show_help_modal = false;
        }
    }

    fn edit_key(&mut self, code: KeyCode) -> (actions: Vec<AppAction>)
        ensures
            edit_post(*old(self), code, *final(self), actions@),
    {
        let mut actions: Vec<AppAction> = Vec::new();
        match code {
            KeyCode::Esc => {
                self.playlist_modal_mode = PlaylistModalMode::List;
                self.playlist_modal_input = String::new();
            },
            KeyCode::Enter => {
                let name = trim(self.playlist_modal_input.as_str());
                if !name.as_str().is_empty() {
                    if self.playlist_modal_mode == PlaylistModalMode::Create {
                        actions.push(AppAction::CreatePlaylist(name));
                    } else {
                        actions.push(AppAction::RenamePlaylist { idx: self.playlist_modal_selected, name });
                    }
                }
                self.playlist_modal_mode = PlaylistModalMode::List;
                self.playlist_modal_input = String::new();
            },
            KeyCode::Backspace => {
                pop_char(&mut self.playlist_modal_input);
            },
            KeyCode::Char(c) => {
                push_char(&mut self.playlist_modal_input, c);
            },
            _ => {},
        }
        actions
    }

    fn playlist_list_key(&mut self, code: KeyCode, app: &App) -> (actions: Vec<AppAction>)
        requires
            app.playlists@.len() > 0 ==> old(self).playlist_modal_selected < app.playlists@.len(),
        ensures
            list_post(*old(self), *app, code, *final(self), actions@),
    {
        let mut actions: Vec<AppAction> = Vec::new();
        let n = app.playlists.len();
        if code == KeyCode::Esc {
            self.show_playlist_modal = false;
            self.playlist_modal_selected = 0;
        } else if key_is_up(code) {
            if self.playlist_modal_selected > 0 {
                self.playlist_modal_selected = self.playlist_modal_selected - 1;
            }
        } else if key_is_down(code) {
            if n > 0 && self.playlist_modal_selected < n - 1 {
                self.playlist_modal_selected = self.playlist_modal_selected + 1;
            }
        } else if code == KeyCode::Enter {
            let current: Option<usize> = match app.queue.current_index {
                Some(qi) => if qi < app.queue.tracks.len() { Some(app.queue.tracks[qi]) } else { None },
                None => None,
            };
            if let Some(track_idx) = current {
                let pl_idx = self.playlist_modal_selected;
                if pl_idx < n {
                    if crate::session::contains_index(&app.playlists[pl_idx].tracks, track_idx) {
                        actions.push(AppAction::RemoveFromPlaylist { playlist_idx: pl_idx, track_idx });
                    } else {
                        actions.push(AppAction::AddToPlaylist { playlist_idx: pl_idx, track_idx });
                    }
                }
            }
        } else if key_is_char(code, 'a') {
            self.playlist_modal_mode = PlaylistModalMode::Create;
            self.playlist_modal_input = String::new();
        } else if key_is_char(code, 'd') {
            if n > 0 {
                actions.push(AppAction::DeletePlaylist(self.playlist_modal_selected));
                if self.playlist_modal_selected > 0 && self.playlist_modal_selected >= n - 1 {
                    self.playlist_modal_selected = self.playlist_modal_selected - 1;
                }
            }
        } else if key_is_char(code, 'r') && n > 0 {
            self.playlist_modal_mode = PlaylistModalMode::Rename;
            self.playlist_modal_input = app.playlists[self.playlist_modal_selected].name.clone();
        }
        actions
    }

    pub(crate) fn close_search(&mut self)
        ensures
            search_closed(*old(self), *final(self)),
    {
        self.show_search_modal = false;
        self.search_modal_input = String::new();
        self.search_modal_results = Vec::new();
        self.search_modal_selected = 0;
        self.search_modal_scroll = 0;
    }

    fn search_key(&mut self, code: KeyCode, app: &App) -> (actions: Vec<AppAction>)
        requires
            old(self).search_modal_results@.len() > 0 ==> old(self).search_modal_selected < old(self).search_modal_results@.len(),
        ensures
            search_post(*old(self), *app, code, *final(self), actions@),
    {
        let mut actions: Vec<AppAction> = Vec::new();
        let count = self.search_modal_results.len();
        if code == KeyCode::Esc {
            self.close_search();
        } else if code == KeyCode::Enter {
            if count > 0 {
                let track_idx = self.search_modal_results[self.search_modal_selected];
                let mut v: Vec<usize> = Vec::new();
                v.push(track_idx);
                assert(v@ =~= seq![track_idx]);
                actions.push(AppAction::AddToQueue(v));
                self.close_search();
            }
        } else if code == KeyCode::Up || code == KeyCode::BackTab {
            if self.search_modal_selected > 0 {
                self.search_modal_selected = self.search_modal_selected - 1;
                if self.search_modal_selected < self.search_modal_scroll {
                    self.search_modal_scroll = self.search_modal_selected;
                }
            }
        } else if code == KeyCode::Down || code == KeyCode::Tab {
            if count > 0 && self.search_modal_selected < count - 1 {
                self.search_modal_selected = self.search_modal_selected + 1;
                let h = self.search_modal_result_height;
                let sel = self.search_modal_selected;
                let scroll = self.search_modal_scroll;
                if h > 0 && sel >= scroll && sel - scroll >= h {
                    self.search_modal_scroll = sel - h + 1;
                }
            }
        } else if code == KeyCode::Backspace {
            pop_char(&mut self.search_modal_input);
            self.search_modal_results = app.library.search(self.search_modal_input.as_str());
            self.search_modal_selected = 0;
            self.search_modal_scroll = 0;
        } else if let KeyCode::Char(c) = code {
            push_char(&mut self.search_modal_input, c);
            self.search_modal_results = app.library.search(self.search_modal_input.as_str());
            self.search_modal_selected = 0;
            self.search_modal_scroll = 0;
        }
        actions
    }

    fn chord_key(&mut self, code: KeyCode) -> (actions: Vec<AppAction>)
        ensures
            chord_post(*old(self), code, *final(self), actions@),
    {
        let mut actions: Vec<AppAction> = Vec::new();
        self.chord_pending = false;
        if key_is_char(code, 's') {
            self.show_search_modal = true;
        } else if key_is_char(code, 'h') {
            self.show_help_modal = true;
        } else if key_is_char(code, 'r') {
            self.resize_mode = !self.resize_mode;
        } else if key_is_char(code, 'i') {
            self.show_about_modal = true;
        } else if key_is_char(code, 'l') {
            actions.push(AppAction::LibrarySync);
        }
        actions
    }

    fn resize_key(&mut self, code: KeyCode, app: &App) -> (actions: Vec<AppAction>)
        requires
            old(self).wf(),
        ensures
            resize_post(*old(self), *app, code, *final(self), actions@),
            final(self).wf(),
    {
        let mut actions: Vec<AppAction> = Vec::new();
        if key_is_char(code, 'h') || code == KeyCode::Left {
            let mut w = self.pane_widths;
            resize_pane(&mut w, app.focus, -2);
            self.pane_widths = w;
        } else if key_is_char(code, 'l') || code == KeyCode::Right {
            let mut w = self.pane_widths;
            resize_pane(&mut w, app.focus, 2);
            self.pane_widths = w;
        } else if key_is_up(code) {
            let v = self.right_split - 3;
            self.right_split = if v < 10 { 10 } else { v };
        } else if key_is_down(code) {
            let v = self.right_split + 3;
            self.right_split = if v > 90 { 90 } else { v };
        } else if code == KeyCode::Esc || code == KeyCode::Enter {
            self.resize_mode = false;
        } else if key_is_char(code, 'q') {
            self.resize_mode = false;
            actions.push(AppAction::Quit);
        }
        actions
    }

    fn global_key(&mut self, key: KeyEvent, app: &App) -> (actions: Vec<AppAction>)
        requires
            is_global(key.modifiers, key.code),
        ensures
            global_post(*old(self), *app, key.modifiers, key.code, *final(self), actions@),
    {
        let mut actions: Vec<AppAction> = Vec::new();
        let code = key.code;
        let m = key.modifiers;
        match global_key_action(m, code) {
            Some(a) => {
                actions.push(a);
            },
            None => {
                if key_is_char(code, 'b') {
                    if app.queue.current_index.is_some() {
                        self.show_playlist_modal = true;
                        self.playlist_modal_selected = 0;
                    }
                } else {
                    self.info_view = self.info_view.next();
                }
            },
        }
        actions
    }

    fn route_key(&mut self, key: KeyEvent, app: &App) -> (actions: Vec<AppAction>)
        requires
            old(self).wf(),
        ensures
            route_post(*old(self), *app, key.code, *final(self), actions@),
            final(self).wf(),
    {
        let code = key.code;
        let action: Option<AppAction> = match app.focus {
            FocusedPane::Library => match app.tab {
                Tab::Queue => self.library_pane.handle_key(key, app),
                Tab::Directories => self.dir_browser_pane.handle_key(key, app),
                tab => {
                    let slot = list_slot(tab);
                    let count = row_count(app, tab);
                    let mut pane = self.list_panes[slot];
                    let go = pane.handle_key(key, count);
                    self.list_panes.set(slot, pane);
                    if go {
                        activate(app, tab, pane.selected)
                    } else {
                        None
                    }
                },
            },
            FocusedPane::Playlist => {
                if key_is_down(code) || key_is_up(code) {
                    None
                } else {
                    self.queue_pane.handle_key(key, app)
                }
            },
            FocusedPane::Lyrics => self.lyrics_pane.handle_key(key, app),
        };
        let mut actions: Vec<AppAction> = Vec::new();
        if let Some(a) = action {
            let queued = match &a {
                AppAction::AddToQueue(_) => true,
                _ => false,
            };
            if queued && app.focus == FocusedPane::Library {
                actions.push(AppAction::FocusPane(FocusedPane::Playlist));
            }
            actions.push(a);
        }
        actions
    }

    /// Handles one key press; returns the actions for the session and, from
    /// the about modal, a page to open.
    pub fn handle_key_event(&mut self, key: KeyEvent, app: &App) -> (r: (Vec<AppAction>, Option<Link>))
        requires
            key_ok(*old(self), *app),
        ensures
            key_post(*old(self), *app, key, *final(self), r.0@, r.1),
            final(self).wf(),
    {
        reveal(key_post);
        let code = key.code;
        if self.show_about_modal {
            let link = self.about_key(code);
            return (Vec::new(), link);
        }
        if self.show_help_modal {
            self.help_key(code);
            return (Vec::new(), None);
        }
        if self.show_playlist_modal {
            if self.playlist_modal_mode != PlaylistModalMode::List {
                return (self.edit_key(code), None);
            }
            return (self.playlist_list_key(code, app), None);
        }
        if self.show_search_modal {
            return (self.search_key(code, app), None);
        }
        if app.search_mode {
            return (Vec::new(), None);
        }
        if self.chord_pending {
            return (self.chord_key(code), None);
        }
        if key.modifiers == MOD_CONTROL && key_is_char(code, 'e') {
            self.chord_pending = true;
            return (Vec::new(), None);
        }
        if key.modifiers == MOD_CONTROL && key_is_char(code, 's') {
            self.show_search_modal = true;
            return (Vec::new(), None);
        }
        if key.modifiers == MOD_CONTROL && key_is_char(code, 'h') {
            self.show_help_modal = true;
            return (Vec::new(), None);
        }
        if key.modifiers == MOD_CONTROL && key_is_char(code, 'a') {
            self.show_about_modal = true;
            return (Vec::new(), None);
        }
        if key.modifiers == MOD_CONTROL && key_is_char(code, 'l') {
            let mut actions: Vec<AppAction> = Vec::new();
            actions.push(AppAction::LibrarySync);
            return (actions, None);
        }
        if self.resize_mode {
            return (self.resize_key(code, app), None);
        }
        if global_key_action(key.modifiers, code).is_some() || key_is_char(code, 'b') || key_is_char(code, 'p') {
            return (self.global_key(key, app), None);
        }
        (self.route_key(key, app), None)
    }
}

/// The action of a global binding, if the key is one.
pub fn global_key_action(m: u8, code: KeyCode) -> (r: Option<AppAction>)
    ensures
        r == global_action(m, code),
{
    match code {
        KeyCode::Char(c) => {
            if c == 'q' {
                Some(AppAction::Quit)
            } else if m == MOD_CONTROL && c == 'c' {
                Some(AppAction::Quit)
            } else if c == ' ' {
                Some(AppAction::PauseResume)
            } else if c == 'n' {
                Some(AppAction::NextTrack)
            } else if m == MOD_SHIFT && c == 'N' {
                Some(AppAction::PrevTrack)
            } else if c == '+' || c == '=' {
                Some(AppAction::VolumeUp)
            } else if c == '-' {
                Some(AppAction::VolumeDown)
            } else if c == 's' {
                Some(AppAction::ToggleShuffle)
            } else if c == 'r' {
                Some(AppAction::CycleRepeat)
            } else if '1' <= c && c <= '7' {
                let i = (c as u32 - '1' as u32) as usize;
                Some(AppAction::SwitchTab(Tab::from_index(i)))
            } else if c == 'h' {
                Some(AppAction::FocusPrev)
            } else if c == 'l' {
                Some(AppAction::FocusNext)
            } else {
                None
            }
        },
        KeyCode::Right => Some(AppAction::SeekForward),
        KeyCode::Left => Some(AppAction::SeekBackward),
        KeyCode::Tab => Some(AppAction::FocusNext),
        KeyCode::BackTab => if m == MOD_SHIFT { Some(AppAction::FocusPrev) } else { None },
        _ => None,
    }
}

/// In the queue, j/k and Up/Down move the session's selection within the
/// queue.
pub fn update_queue_selection(app: &mut App, key: KeyEvent)
    ensures
        ({
            let o = *old(app);
            let n = o.queue.tracks@.len();
            let s = o.queue.selected_index;
            let new_sel = if n == 0 {
                s
            } else if is_down(key.code) && s < n - 1 {
                (s + 1) as usize
            } else if is_up(key.code) && s > 0 {
                (s - 1) as usize
            } else {
                s
            };
            *final(app) == (App { queue: QueueState { selected_index: new_sel, ..o.queue }, ..o })
        }),
{
    let count = app.queue.tracks.len();
    if count == 0 {
        return;
    }
    if key_is_down(key.code) {
        if app.queue.selected_index < count - 1 {
            app.queue.selected_index = app.queue.selected_index + 1;
        }
    } else if key_is_up(key.code) {
        if app.queue.selected_index > 0 {
            app.queue.selected_index = app.queue.selected_index - 1;
        }
    }
}

} // verus!
