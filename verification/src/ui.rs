//! The interface state around the panes: which modal is open and what it
//! holds, pane widths and splits, hover and drag tracking, and the startup
//! splash's timeline. Times are milliseconds on a monotonic clock.

use vstd::prelude::*;
use crate::geometry::{Rect, widths_sane, min_int, sat_sub, DEFAULT_PANE_WIDTHS};
use crate::library::search_result;
use crate::library_pane::LibraryPane;
use crate::list_pane::{ListPane, row_count, listing_len};
use crate::panes::{DirBrowserPane, QueuePane, LyricsPane, dir_rows};
use crate::session::App;
use crate::state::{Tab, InfoView};

verus! {

/// When the splash is fully faded in.
pub const SPLASH_FADE_IN_MS: u64 = 500;
/// When the splash starts fading out.
pub const SPLASH_FADE_OUT_AT_MS: u64 = 1500;
/// When the splash is gone.
pub const SPLASH_END_MS: u64 = 2000;

/// What the playlist modal is doing.
#[derive(Debug, Clone, Copy, PartialEq, Eq, Structural)]
pub enum PlaylistModalMode {
    List,
    Create,
    Rename,
}

/// The five list tabs in slot order.
pub open spec fn slot_tab(i: int) -> Tab {
    if i == 0 {
        Tab::Artists
    } else if i == 1 {
        Tab::Albums
    } else if i == 2 {
        Tab::Genre
    } else if i == 3 {
        Tab::Format
    } else {
        Tab::Playlists
    }
}

/// Everything the interface remembers between events.
#[derive(Debug, Clone)]
pub struct Ui {
    pub library_pane: LibraryPane,
    pub dir_browser_pane: DirBrowserPane,
    pub queue_pane: QueuePane,
    /// One per list tab, by `list_slot`.
    pub list_panes: Vec<ListPane>,
    pub lyrics_pane: LyricsPane,
    /// Time and cell of the last click that could start a double-click.
    pub last_click: Option<(u64, u16, u16)>,
    /// Last known pointer cell.
    pub mouse_pos: Option<(u16, u16)>,
    pub hovered_tab: Option<usize>,
    /// Widths of the library, queue and right panes, in percent.
    pub pane_widths: [u16; 3],
    /// Border being dragged: 0 library|queue, 1 queue|right, 2 info|lyrics.
    pub dragging_border: Option<u8>,
    /// Height of the info pane within the right column, in percent.
    pub right_split: u16,
    pub show_help_modal: bool,
    pub show_search_modal: bool,
    pub search_modal_input: String,
    /// Library indices the search modal lists.
    pub search_modal_results: Vec<usize>,
    pub search_modal_selected: usize,
    pub search_modal_scroll: usize,
    /// Result rows the modal showed last time it was drawn.
    pub search_modal_result_height: usize,
    /// Where the modal drew its results, for hit-testing.
    pub search_modal_result_area: Rect,
    pub search_modal_hover_row: Option<usize>,
    pub show_playlist_modal: bool,
    pub playlist_modal_selected: usize,
    pub playlist_modal_mode: PlaylistModalMode,
    pub playlist_modal_input: String,
    pub show_about_modal: bool,
    pub show_splash: bool,
    pub splash_start: Option<u64>,
    pub info_view: InfoView,
    /// Arrow keys resize panes instead of acting.
    pub resize_mode: bool,
    /// Ctrl+E was pressed and the next key completes the chord.
    pub chord_pending: bool,
}

/// The splash after a keypress at `now`: moved on to the start of its
/// fade-out if it is showing and not there yet (and the clock reads at
/// least the fade-out mark); otherwise as it was.
pub open spec fn skip_splash(o: Ui, now: u64) -> Ui {
    let skips = o.show_splash && o.splash_start is Some
        && sat_sub(now as int, o.splash_start->0 as int) < SPLASH_FADE_OUT_AT_MS
        && now >= SPLASH_FADE_OUT_AT_MS;
    if skips {
        Ui { splash_start: Some((now - SPLASH_FADE_OUT_AT_MS) as u64), ..o }
    } else {
        o
    }
}

impl Ui {
    /// Five list panes, sane widths, a right split between 10 and 90
    /// percent, and the directory browser's selection on a row.
    pub open spec fn wf(self) -> bool {
        &&& self.layout_ok()
        &&& self.dir_browser_pane.selection_ok()
    }

    /// Five list panes, sane widths, a right split between 10 and 90 percent.
    pub open spec fn layout_ok(self) -> bool {
        &&& self.list_panes@.len() == 5
        &&& widths_sane(self.pane_widths)
        &&& 10 <= self.right_split <= 90
    }

    /// Whether the state is well formed (see `wf`).
    pub fn is_consistent(&self) -> (r: bool)
        ensures
            r == self.wf(),
    {
        let w = self.pane_widths;
        self.list_panes.len() == 5 && w[0] >= 10 && w[1] >= 10 && w[2] >= 10
            && w[0] as u32 + w[1] as u32 + w[2] as u32 == 100 && self.right_split >= 10
            && self.right_split <= 90
            && (self.dir_browser_pane.entries.len() == 0 || self.dir_browser_pane.selected < self.dir_browser_pane.entries.len())
    }

    /// The interface at startup, `now` being the clock when the splash
    /// starts.
    pub fn new(music_dir: String, now: u64) -> (u: Ui)
        ensures
            u.wf(),
            u.dir_browser_pane.current_dir@ == music_dir@,
            u.dir_browser_pane.entries@.len() == 0,
            u.pane_widths == DEFAULT_PANE_WIDTHS,
            u.right_split == 50,
            u.show_splash,
            u.splash_start == Some(now),
            u.info_view == InfoView::Clock,
            u.playlist_modal_mode == PlaylistModalMode::List,
            u.search_modal_result_height == 10,
            !u.show_help_modal && !u.show_search_modal && !u.show_playlist_modal && !u.show_about_modal,
            !u.resize_mode && !u.chord_pending,
            u.last_click is None && u.mouse_pos is None && u.hovered_tab is None && u.dragging_border is None,
            u.search_modal_input@.len() == 0 && u.search_modal_results@.len() == 0,
            u.playlist_modal_input@.len() == 0,
            u.search_modal_selected == 0 && u.search_modal_scroll == 0 && u.playlist_modal_selected == 0,
            forall|i: int| 0 <= i < 5 ==> #[trigger] u.list_panes@[i] == (ListPane { selected: 0, scroll_offset: 0, hover_row: None }),
    {
        let mut list_panes: Vec<ListPane> = Vec::new();
        let mut i: usize = 0;
        while i < 5
            invariant
                i <= 5,
                list_panes@.len() == i,
                forall|k: int| 0 <= k < i ==> #[trigger] list_panes@[k] == (ListPane { selected: 0, scroll_offset: 0, hover_row: None }),
            decreases 5 - i,
        {
            list_panes.push(ListPane::new());
            i += 1;
        }
        Ui {
            library_pane: LibraryPane::new(),
            dir_browser_pane: DirBrowserPane::new(music_dir),
            queue_pane: QueuePane::new(),
            list_panes,
            lyrics_pane: LyricsPane::new(),
            last_click: None,
            mouse_pos: None,
            hovered_tab: None,
            pane_widths: [20, 60, 20],
            dragging_border: None,
            right_split: 50,
            show_help_modal: false,
            show_search_modal: false,
            search_modal_input: String::new(),
            search_modal_results: Vec::new(),
            search_modal_selected: 0,
            search_modal_scroll: 0,
            search_modal_result_height: 10,
            search_modal_result_area: Rect { x: 0, y: 0, width: 0, height: 0 },
            search_modal_hover_row: None,
            show_playlist_modal: false,
            playlist_modal_selected: 0,
            playlist_modal_mode: PlaylistModalMode::List,
            playlist_modal_input: String::new(),
            show_about_modal: false,
            show_splash: true,
            splash_start: Some(now),
            info_view: InfoView::Clock,
            resize_mode: false,
            chord_pending: false,
        }
    }

    /// A keypress during the splash skips ahead to the start of its fade-out,
    /// unless it is there already; the fade-out itself still plays. The
    /// start moves only when the clock reads at least the fade-out mark.
    pub fn begin_splash_fade_out(&mut self, now: u64)
        ensures
            *final(self) == skip_splash(*old(self), now),
    {
        if !self.show_splash {
            return;
        }
        let start = match self.splash_start {
            Some(s) => s,
            None => {
                return;
            },
        };
        let elapsed = if now >= start { now - start } else { 0 };
        if elapsed >= SPLASH_FADE_OUT_AT_MS {
            return;
        }
        if now >= SPLASH_FADE_OUT_AT_MS {
            self.splash_start = Some(now - SPLASH_FADE_OUT_AT_MS);
        }
    }

    /// The splash is dismissed once its whole timeline has played.
    pub fn splash_tick(&mut self, now: u64)
        ensures
            ({
                let o = *old(self);
                let ends = o.show_splash && o.splash_start is Some
                    && sat_sub(now as int, o.splash_start->0 as int) >= SPLASH_END_MS;
                *final(self) == if ends { Ui { show_splash: false, splash_start: None, ..o } } else { o }
            }),
    {
        if self.show_splash {
            if let Some(start) = self.splash_start {
                let elapsed = if now >= start { now - start } else { 0 };
                if elapsed >= SPLASH_END_MS {
                    self.show_splash = false;
                    self.splash_start = None;
                }
            }
        }
    }

    /// Scroll offset of whichever pane the library column shows.
    pub open spec fn spec_library_scroll(self, app: App) -> usize {
        match app.tab {
            Tab::Queue => self.library_pane.scroll_offset,
            Tab::Directories => self.dir_browser_pane.scroll_offset,
            _ => self.list_panes@[crate::geometry::spec_list_slot(app.tab) as int].scroll_offset,
        }
    }

    pub fn library_pane_scroll(&self, app: &App) -> (r: usize)
        requires
            self.wf(),
        ensures
            r == self.spec_library_scroll(*app),
    {
        match app.tab {
            Tab::Queue => self.library_pane.scroll_offset,
            Tab::Directories => self.dir_browser_pane.scroll_offset,
            tab => self.list_panes[crate::geometry::list_slot(tab)].scroll_offset,
        }
    }

    /// The list pane that list tab `tab` draws in (the playlists' pane for
    /// any tab that is not a list tab).
    pub fn list_pane_mut(&mut self, tab: Tab) -> (r: &mut ListPane)
        requires
            old(self).wf(),
        ensures
            *r == old(self).list_panes@[crate::geometry::spec_list_slot(tab) as int],
            final(self).list_panes@ == old(self).list_panes@.update(crate::geometry::spec_list_slot(tab) as int, *final(r)),
            *final(self) == (Ui { list_panes: final(self).list_panes, ..*old(self) }),
    {
        let slot = crate::geometry::list_slot(tab);
        &mut self.list_panes[slot]
    }

    /// Relists the directory browser.
    pub fn refresh_dir_browser(&mut self, app: &App)
        ensures
            final(self).dir_browser_pane.rows() == dir_rows(*app, old(self).dir_browser_pane.current_dir@),
            *final(self) == (Ui { dir_browser_pane: final(self).dir_browser_pane, ..*old(self) }),
            final(self).dir_browser_pane == (DirBrowserPane { entries: final(self).dir_browser_pane.entries, ..old(self).dir_browser_pane }),
            old(self).layout_ok() ==> final(self).layout_ok(),
    {
        self.dir_browser_pane.refresh(app);
    }

    /// Re-runs the open search against a new library; with the modal closed
    /// the stale results are just dropped.
    pub fn refresh_search_results(&mut self, app: &App)
        ensures
            ({
                let o = *old(self);
                let f = *final(self);
                &&& f == Ui {
                    search_modal_results: f.search_modal_results,
                    search_modal_selected: f.search_modal_selected,
                    search_modal_scroll: f.search_modal_scroll,
                    search_modal_hover_row: f.search_modal_hover_row,
                    ..o
                }
                &&& if o.show_search_modal {
                    &&& f.search_modal_results@ == search_result(app.library.tracks@, o.search_modal_input@)
                    &&& f.search_modal_selected == 0 && f.search_modal_scroll == 0
                    &&& f.search_modal_hover_row is None
                } else {
                    &&& f.search_modal_results@.len() == 0
                    &&& f.search_modal_selected == o.search_modal_selected
                    &&& f.search_modal_scroll == o.search_modal_scroll
                    &&& f.search_modal_hover_row == o.search_modal_hover_row
                }
            }),
            old(self).wf() ==> final(self).wf(),
    {
        if !self.show_search_modal {
            self.search_modal_results = Vec::new();
            return;
        }
        self.search_modal_results = app.library.search(self.search_modal_input.as_str());
        self.search_modal_selected = 0;
        self.search_modal_scroll = 0;
        self.search_modal_hover_row = None;
    }

    /// After the library changed: each list keeps its selection and view
    /// inside its new length, the library overview and the directory browser
    /// go back to the top, and the queue's view stays inside the queue.
    pub fn clamp_selections(&mut self, app: &App)
        requires
            old(self).layout_ok(),
        ensures
            final(self).wf(),
            forall|i: int| 0 <= i < 5 ==> {
                let len = listing_len(*app, slot_tab(i));
                let p = #[trigger] old(self).list_panes@[i];
                final(self).list_panes@[i] == (ListPane {
                    selected: min_int(p.selected as int, sat_sub(len as int, 1)) as usize,
                    scroll_offset: min_int(p.scroll_offset as int, sat_sub(len as int, 1)) as usize,
                    hover_row: p.hover_row,
                })
            },
            final(self).library_pane == (LibraryPane { selected: 0, scroll_offset: 0, ..old(self).library_pane }),
            final(self).dir_browser_pane == (DirBrowserPane { selected: 0, scroll_offset: 0, ..old(self).dir_browser_pane }),
            final(self).queue_pane.scroll_offset == min_int(old(self).queue_pane.scroll_offset as int, sat_sub(app.queue.tracks@.len() as int, 1)),
            final(self).queue_pane.hover_row == old(self).queue_pane.hover_row,
            *final(self) == (Ui {
                list_panes: final(self).list_panes,
                library_pane: final(self).library_pane,
                dir_browser_pane: final(self).dir_browser_pane,
                queue_pane: final(self).queue_pane,
                ..*old(self)
            }),
    {
        let ghost before = self.list_panes@;
        let tabs: [Tab; 5] = [Tab::Artists, Tab::Albums, Tab::Genre, Tab::Format, Tab::Playlists];
        let mut i: usize = 0;
        while i < 5
            invariant
                i <= 5,
                self.list_panes@.len() == 5,
                *self == (Ui { list_panes: self.list_panes, ..*old(self) }),
                before == old(self).list_panes@,
                before.len() == 5,
                tabs@ == seq![Tab::Artists, Tab::Albums, Tab::Genre, Tab::Format, Tab::Playlists],
                forall|k: int| i <= k < 5 ==> #[trigger] self.list_panes@[k] == before[k],
                forall|k: int| 0 <= k < i ==> {
                    let len = listing_len(*app, slot_tab(k));
                    let p = #[trigger] before[k];
                    self.list_panes@[k] == (ListPane {
                        selected: min_int(p.selected as int, sat_sub(len as int, 1)) as usize,
                        scroll_offset: min_int(p.scroll_offset as int, sat_sub(len as int, 1)) as usize,
                        hover_row: p.hover_row,
                    })
                },
            decreases 5 - i,
        {
            let tab = tabs[i];
            assert(tab == slot_tab(i as int));
            let len = row_count(app, tab);
            self.list_panes[i].clamp_to(len);
            i += 1;
        }
        self.library_pane.selected = 0;
        self.library_pane.scroll_offset = 0;
        self.dir_browser_pane.selected = 0;
        self.dir_browser_pane.scroll_offset = 0;
        let queue_len = app.queue.tracks.len();
        if queue_len == 0 {
            self.queue_pane.scroll_offset = 0;
        } else if self.queue_pane.scroll_offset > queue_len - 1 {
            self.queue_pane.scroll_offset = queue_len - 1;
        }
    }
}

} // verus!
