//! What a mouse event does: hover highlighting, focus that follows the
//! click, dragging the pane borders, double-clicks, clicks on the tab bar,
//! the progress bar and the panes, and the scroll wheel.

use vstd::prelude::*;
use crate::geometry::{
    Rect, LayoutAreas, PaneHit, spec_layout_areas, spec_bordered_inner, bordered_inner, sat_sub,
    clamp_int, spec_split_widths, split_widths, spec_tab_hit, tab_hit_test, spec_progress_gauge_area,
    progress_gauge_area, spec_list_slot, list_slot, widths_sane, spec_clicked_row, clicked_row_in, MIN_PANE_WIDTH,
};
use crate::input::{KeyCode, KeyEvent, MouseEvent, MouseKind, MOD_NONE};
use crate::keys::queues;
use crate::library_pane::{LibraryPane, library_entries, library_activation};
use crate::list_pane::{ListPane, listing_len, row_count, activation, activate, usize_sat_sub};
use crate::panes::{DirBrowserPane, QueuePane, LyricsPane, clicked, dir_key_post, dir_key_queue, queue_scroll_action, u16_sat_add, u16_sat_sub};
use crate::session::{App, AppAction};
use crate::state::{FocusedPane, Tab, tab_at};
use crate::keys::search_closed;
use crate::ui::Ui;

verus! {

/// How soon a second click on the same cell makes a double-click.
pub const DOUBLE_CLICK_MS: u64 = 400;

/// A click at (x, y) at time `now` completes a double-click with the last
/// one: same cell, less than `DOUBLE_CLICK_MS` later.
pub open spec fn double_click(last: Option<(u64, u16, u16)>, now: u64, x: u16, y: u16) -> bool {
    match last {
        Some((at, lx, ly)) => lx == x && ly == y && sat_sub(now as int, at as int) < DOUBLE_CLICK_MS,
        None => false,
    }
}

pub fn is_double_click(last: Option<(u64, u16, u16)>, now: u64, x: u16, y: u16) -> (r: bool)
    ensures
        r == double_click(last, now, x, y),
{
    match last {
        Some((at, lx, ly)) => {
            let elapsed = if now >= at { now - at } else { 0 };
            lx == x && ly == y && elapsed < DOUBLE_CLICK_MS
        },
        None => false,
    }
}

/// The tab shows one of the five shared lists.
pub open spec fn is_list_tab(t: Tab) -> bool {
    t != Tab::Queue && t != Tab::Directories
}

/// How many rows the library column shows.
pub open spec fn library_rows(o: Ui, app: App) -> nat {
    match app.tab {
        Tab::Queue => library_entries(app).len(),
        Tab::Directories => o.dir_browser_pane.entries@.len(),
        _ => listing_len(app, app.tab),
    }
}

/// What the pointer is over, for highlighting.
#[derive(Debug, Clone, Copy, PartialEq, Eq, Structural)]
pub enum HoverTarget {
    Nothing,
    /// A queue row.
    Queue(usize),
    /// A row of the library column.
    Library(usize),
}

/// The row under (x, y): a queue row, or a row of the library column that
/// exists, counted from the top of the list.
pub open spec fn hover_target(o: Ui, app: App, areas: LayoutAreas, x: u16, y: u16) -> HoverTarget {
    let play = spec_bordered_inner(areas.playlist);
    let lib = spec_bordered_inner(areas.library);
    if areas.playlist.holds(x as int, y as int) {
        if play.holds(x as int, y as int) && o.queue_pane.scroll_offset + (y - play.y) < app.queue.tracks@.len() {
            HoverTarget::Queue((o.queue_pane.scroll_offset + (y - play.y)) as usize)
        } else {
            HoverTarget::Nothing
        }
    } else if areas.library.holds(x as int, y as int) {
        let s = o.spec_library_scroll(app);
        if lib.holds(x as int, y as int) && s + (y - lib.y) < library_rows(o, app) {
            HoverTarget::Library((s + (y - lib.y)) as usize)
        } else {
            HoverTarget::Nothing
        }
    } else {
        HoverTarget::Nothing
    }
}

/// The tab title under (x, y), if the pointer is on the tab bar.
pub open spec fn tab_hover(areas: LayoutAreas, x: u16, y: u16) -> Option<usize> {
    if areas.tab_bar.y <= y < areas.tab_bar.y + areas.tab_bar.height {
        spec_tab_hit(areas.tab_bar, x as int)
    } else {
        None
    }
}

/// Every pane's highlighted row cleared, then the one under the pointer set.
pub open spec fn hovers_post(o: Ui, app: App, t: HoverTarget, f: Ui) -> bool {
    let lib_row: Option<usize> = match t {
        HoverTarget::Library(r) => Some(r),
        _ => None,
    };
    &&& f == (Ui {
        queue_pane: f.queue_pane,
        library_pane: f.library_pane,
        dir_browser_pane: f.dir_browser_pane,
        list_panes: f.list_panes,
        ..o
    })
    &&& f.queue_pane == (QueuePane {
        hover_row: match t {
            HoverTarget::Queue(r) => Some(r),
            _ => None,
        },
        ..o.queue_pane
    })
    &&& f.library_pane == (LibraryPane { hover_row: if app.tab == Tab::Queue { lib_row } else { None }, ..o.library_pane })
    &&& f.dir_browser_pane == (DirBrowserPane {
        hover_row: if app.tab == Tab::Directories { lib_row } else { None },
        ..o.dir_browser_pane
    })
    &&& f.list_panes@.len() == o.list_panes@.len()
    &&& forall|i: int| 0 <= i < o.list_panes@.len() ==> #[trigger] f.list_panes@[i] == (ListPane {
        hover_row: if is_list_tab(app.tab) && spec_list_slot(app.tab) == i { lib_row } else { None },
        ..o.list_panes@[i]
    })
}

/// Highlighting redone for a pointer at (x, y).
pub open spec fn hover_refresh_post(o: Ui, app: App, areas: LayoutAreas, x: u16, y: u16, f: Ui) -> bool {
    hovers_post(Ui { hovered_tab: tab_hover(areas, x, y), ..o }, app, hover_target(o, app, areas, x, y), f)
}

/// The pointer moved to (x, y): remembered, and the highlighting follows.
pub open spec fn pointer_post(o: Ui, app: App, areas: LayoutAreas, x: u16, y: u16, f: Ui) -> bool {
    hover_refresh_post(Ui { mouse_pos: Some((x, y)), ..o }, app, areas, x, y, f)
}

/// A left press over a pane other than the focused one focuses it.
pub open spec fn focus_actions(app: App, areas: LayoutAreas, mouse: MouseEvent) -> Seq<AppAction> {
    let hit = PaneHit {
        library: areas.library.holds(mouse.column as int, mouse.row as int),
        playlist: areas.playlist.holds(mouse.column as int, mouse.row as int),
        lyrics: areas.lyrics.holds(mouse.column as int, mouse.row as int),
    };
    if mouse.kind == MouseKind::Down && hit.spec_pane() is Some && hit.spec_pane()->0 != app.focus {
        seq![AppAction::FocusPane(hit.spec_pane()->0)]
    } else {
        Seq::empty()
    }
}

/// Pane widths with border `b` (0 library|queue, 1 queue|right) dragged to
/// `pct` percent of the dashboard; unchanged when the panes would not fit.
pub open spec fn drag_widths(w: [u16; 3], b: u8, pct: u16) -> [u16; 3] {
    if b == 0 {
        match spec_split_widths(pct, w[2], MIN_PANE_WIDTH) {
            Some((a, c)) => [a, c, w[2]],
            None => w,
        }
    } else if b == 1 {
        match spec_split_widths(sat_sub(pct as int, w[0] as int) as u16, w[0], MIN_PANE_WIDTH) {
            Some((a, c)) => [w[0], a, c],
            None => w,
        }
    } else {
        w
    }
}

/// The dragged border follows the pointer: the vertical ones by the
/// pointer's share of the dashboard width, the info|lyrics one by its share
/// of the right column's height (kept between 10 and 90 percent).
pub open spec fn dragged(o: Ui, areas: LayoutAreas, x: u16, y: u16, f: Ui) -> bool {
    let b = o.dragging_border->0;
    let dash_w = areas.library.width + areas.playlist.width + areas.lyrics.width;
    let pct = ((sat_sub(x as int, areas.library.x as int) * 100) / dash_w) as u16;
    let right_h = areas.info_pane.height + areas.lyrics.height;
    if dash_w == 0 {
        f == o
    } else if b == 0 || b == 1 {
        f == (Ui { pane_widths: drag_widths(o.pane_widths, b, pct), ..o })
    } else if b == 2 && right_h > 0 {
        f == (Ui {
            right_split: clamp_int((sat_sub(y as int, areas.info_pane.y as int) * 100) / right_h, 10, 90) as u16,
            ..o
        })
    } else {
        f == o
    }
}

/// The border a press at (x, y) grabs: within a cell of the library|queue
/// or queue|right border on a dashboard row, or of the info|lyrics border
/// inside the right column.
pub open spec fn border_hit(areas: LayoutAreas, x: u16, y: u16) -> Option<u8> {
    let lib = areas.library;
    let play = areas.playlist;
    let info = areas.info_pane;
    let b0 = lib.x + lib.width;
    let b1 = play.x + play.width;
    let b2 = info.y + info.height;
    if !(lib.y <= y < lib.y + lib.height) {
        None
    } else if -1 <= x - b0 <= 1 {
        Some(0u8)
    } else if -1 <= x - b1 <= 1 {
        Some(1u8)
    } else if info.x <= x < info.x + info.width && -1 <= y - b2 <= 1 {
        Some(2u8)
    } else {
        None
    }
}

/// The queue entry on screen row `y` of the queue pane, if there is one.
pub open spec fn queue_row_at(o: Ui, app: App, areas: LayoutAreas, y: u16) -> Option<usize> {
    let inner = spec_bordered_inner(areas.playlist);
    if inner.y <= y < inner.y + inner.height && o.queue_pane.scroll_offset + (y - inner.y) < app.queue.tracks@.len() {
        Some((o.queue_pane.scroll_offset + (y - inner.y)) as usize)
    } else {
        None
    }
}

/// The library-column row on screen row `y`, if there is one.
pub open spec fn library_row_at(o: Ui, app: App, areas: LayoutAreas, y: u16) -> Option<usize> {
    match spec_clicked_row(areas.library, y as int) {
        Some(r) => if o.spec_library_scroll(app) + r < library_rows(o, app) {
            Some((o.spec_library_scroll(app) + r) as usize)
        } else {
            None
        },
        None => None,
    }
}

/// Where a click on the progress gauge seeks to: the same share of the
/// track as the click's share of the gauge, in whole milliseconds.
pub open spec fn seek_target(dx: int, gauge_width: int, duration_ms: int) -> u64 {
    (dx * duration_ms / gauge_width) as u64
}

/// A queueing answer from the library column, preceded by moving focus to
/// the queue.
pub open spec fn library_answer(q: Option<Seq<usize>>, actions: Seq<AppAction>) -> bool {
    match q {
        Some(t) => actions.len() == 2 && actions[0] == AppAction::FocusPane(FocusedPane::Playlist) && queues(actions[1], t),
        None => actions.len() == 0,
    }
}

/// A click on a library-column row selects it in the tab's pane and
/// activates it, as Enter would.
pub open spec fn library_click_post(o: Ui, app: App, areas: LayoutAreas, x: u16, y: u16, f: Ui, actions: Seq<AppAction>) -> bool {
    match app.tab {
        Tab::Queue => {
            let lp = match clicked(areas.library, x, y, o.library_pane.scroll_offset, library_entries(app).len()) {
                Some(c) => LibraryPane { selected: c, ..o.library_pane },
                None => o.library_pane,
            };
            f == (Ui { library_pane: lp, ..o }) && library_answer(library_activation(app, lp.selected as int), actions)
        },
        Tab::Directories => {
            let dp = match clicked(areas.library, x, y, o.dir_browser_pane.scroll_offset, o.dir_browser_pane.entries@.len()) {
                Some(c) => DirBrowserPane { selected: c, ..o.dir_browser_pane },
                None => o.dir_browser_pane,
            };
            &&& f == (Ui { dir_browser_pane: f.dir_browser_pane, ..o })
            &&& dir_key_post(dp, app, KeyCode::Enter, f.dir_browser_pane)
            &&& library_answer(dir_key_queue(dp, KeyCode::Enter), actions)
        },
        _ => {
            let i = spec_list_slot(app.tab) as int;
            let n = listing_len(app, app.tab);
            let mouse = MouseEvent { kind: MouseKind::Down, column: x, row: y };
            let lp = o.list_panes@[i].after_mouse(mouse, areas.library, n);
            &&& f == (Ui { list_panes: f.list_panes, ..o })
            &&& f.list_panes@ == o.list_panes@.update(i, lp)
            &&& library_answer(if n > 0 { activation(app, app.tab, lp.selected as int) } else { None }, actions)
        },
    }
}

/// A left press that grabs no border: it may complete a double-click, and
/// then acts on what it lands on — a tab title, the progress gauge, a queue
/// row (double-click plays it, a single click selects it) or a library row.
pub open spec fn press_post(o: Ui, app: App, areas: LayoutAreas, x: u16, y: u16, now: u64, f: Ui, actions: Seq<AppAction>) -> bool {
    let dbl = double_click(o.last_click, now, x, y);
    let o2 = Ui { last_click: if dbl { None } else { Some((now, x, y)) }, ..o };
    let gauge = spec_progress_gauge_area(areas.progress_bar);
    let in_library = areas.library.holds(x as int, y as int);
    let in_playlist = areas.playlist.holds(x as int, y as int);
    if areas.tab_bar.y <= y < areas.tab_bar.y + areas.tab_bar.height {
        f == o2 && actions == (match spec_tab_hit(areas.tab_bar, x as int) {
            Some(i) => seq![AppAction::SwitchTab(tab_at(i as int))],
            None => Seq::empty(),
        })
    } else if areas.progress_bar.y <= y < areas.progress_bar.y + areas.progress_bar.height {
        f == o2 && actions == (if gauge.x <= x < gauge.x + gauge.width {
            seq![AppAction::Seek(seek_target(x - gauge.x, gauge.width as int, app.playback.duration_ms as int))]
        } else {
            Seq::empty()
        })
    } else if dbl && in_playlist && queue_row_at(o, app, areas, y) is Some {
        f == o2 && actions == seq![AppAction::PlayQueueIndex(queue_row_at(o, app, areas, y)->0)]
    } else if in_library && library_row_at(o, app, areas, y) is Some {
        library_click_post(o2, app, areas, x, y, f, actions)
    } else if in_playlist {
        f == o2 && actions == (match queue_row_at(o, app, areas, y) {
            Some(c) => seq![AppAction::SetQueueSelection(c)],
            None => Seq::empty(),
        })
    } else {
        f == o2 && actions.len() == 0
    }
}

/// The wheel over a pane scrolls that pane; over the queue it also asks
/// the selection to follow.
pub open spec fn wheel_post(o: Ui, app: App, areas: LayoutAreas, mouse: MouseEvent, f: Ui, actions: Seq<AppAction>) -> bool {
    let x = mouse.column as int;
    let y = mouse.row as int;
    let up = mouse.kind == MouseKind::ScrollUp;
    if areas.library.holds(x, y) {
        &&& actions.len() == 0
        &&& match app.tab {
            Tab::Queue => f == (Ui { library_pane: o.library_pane.after_scroll(up, library_entries(app).len()), ..o }),
            Tab::Directories => f == (Ui { dir_browser_pane: f.dir_browser_pane, ..o })
                && f.dir_browser_pane.entries@ == o.dir_browser_pane.entries@
                && f.dir_browser_pane.current_dir == o.dir_browser_pane.current_dir
                && f.dir_browser_pane.hover_row == o.dir_browser_pane.hover_row
                && f.dir_browser_pane.selected == o.dir_browser_pane.after_scroll(up).selected
                && f.dir_browser_pane.scroll_offset == o.dir_browser_pane.after_scroll(up).scroll_offset,
            _ => {
                let i = spec_list_slot(app.tab) as int;
                f == (Ui { list_panes: f.list_panes, ..o })
                    && f.list_panes@ == o.list_panes@.update(i, o.list_panes@[i].after_mouse(mouse, areas.library, listing_len(app, app.tab)))
            },
        }
    } else if areas.playlist.holds(x, y) {
        &&& f == (Ui { queue_pane: o.queue_pane.after_scroll(up, app.queue.tracks@.len()), ..o })
        &&& actions == (match queue_scroll_action(up, app.queue.tracks@.len(), app.queue.selected_index) {
            Some(a) => seq![a],
            None => Seq::empty(),
        })
    } else if areas.lyrics.holds(x, y) {
        &&& actions.len() == 0
        &&& f == (Ui {
            lyrics_pane: LyricsPane {
                scroll_offset: if up { u16_sat_sub(o.lyrics_pane.scroll_offset, 3) } else { u16_sat_add(o.lyrics_pane.scroll_offset, 3) },
            },
            ..o
        })
    } else {
        f == o && actions.len() == 0
    }
}

/// The search modal takes all mouse events: the pointer highlights a
/// result, a click selects one (a double-click queues it and closes the
/// modal), the wheel scrolls the results.
pub open spec fn search_mouse_post(o: Ui, mouse: MouseEvent, now: u64, f: Ui, actions: Seq<AppAction>) -> bool {
    let x = mouse.column;
    let y = mouse.row;
    let ra = o.search_modal_result_area;
    let n = o.search_modal_results@.len();
    let in_results = ra.holds(x as int, y as int);
    let row = o.search_modal_scroll + (y - ra.y);
    let on_row = in_results && n > 0 && row < n;
    let p = Ui {
        mouse_pos: Some((x, y)),
        search_modal_hover_row: if on_row { Some(row as usize) } else { None },
        ..o
    };
    match mouse.kind {
        MouseKind::Down => if on_row {
            if double_click(o.last_click, now, x, y) {
                search_closed(Ui { last_click: None, ..p }, f) && actions.len() == 1
                    && queues(actions[0], seq![o.search_modal_results@[row]])
            } else {
                f == (Ui { last_click: Some((now, x, y)), search_modal_selected: row as usize, ..p }) && actions.len() == 0
            }
        } else {
            f == p && actions.len() == 0
        },
        MouseKind::ScrollDown => actions.len() == 0 && f == (if in_results && n > 0
            && o.search_modal_scroll < sat_sub(n as int, o.search_modal_result_height as int) {
            Ui { search_modal_scroll: (o.search_modal_scroll + 1) as usize, ..p }
        } else {
            p
        }),
        MouseKind::ScrollUp => actions.len() == 0 && f == (if in_results && o.search_modal_scroll > 0 {
            Ui { search_modal_scroll: (o.search_modal_scroll - 1) as usize, ..p }
        } else {
            p
        }),
        _ => f == p && actions.len() == 0,
    }
}

/// What a mouse event does, with the layout of a terminal of `area`.
#[verifier::opaque]
pub open spec fn mouse_post(o: Ui, app: App, area: Rect, mouse: MouseEvent, now: u64, f: Ui, actions: Seq<AppAction>) -> bool {
    let areas = spec_layout_areas(area, o.pane_widths, o.right_split);
    let x = mouse.column;
    let y = mouse.row;
    let focus = focus_actions(app, areas, mouse);
    if o.show_search_modal {
        search_mouse_post(o, mouse, now, f, actions)
    } else if o.show_about_modal || o.show_help_modal || o.show_playlist_modal {
        f == (Ui { mouse_pos: Some((x, y)), ..o }) && actions.len() == 0
    } else {
        exists|p: Ui| #[trigger] pointer_post(o, app, areas, x, y, p) && {
            if p.dragging_border is Some && (mouse.kind == MouseKind::Drag || mouse.kind == MouseKind::Moved) {
                dragged(p, areas, x, y, f) && actions == focus
            } else if p.dragging_border is Some && mouse.kind == MouseKind::Up {
                f == (Ui { dragging_border: None, ..p }) && actions == focus
            } else {
                let q = if p.dragging_border is Some { Ui { dragging_border: None, ..p } } else { p };
                let rest = actions.skip(focus.len() as int);
                &&& actions.len() >= focus.len() && actions.take(focus.len() as int) == focus
                &&& match mouse.kind {
                    MouseKind::Down => match border_hit(areas, x, y) {
                        Some(b) => f == (Ui { dragging_border: Some(b), ..q }) && rest.len() == 0,
                        None => press_post(q, app, areas, x, y, now, f, rest),
                    },
                    MouseKind::ScrollDown => wheel_post(q, app, areas, mouse, f, rest),
                    MouseKind::ScrollUp => wheel_post(q, app, areas, mouse, f, rest),
                    _ => f == q && rest.len() == 0,
                }
            }
        }
    }
}

impl Ui {
    /// How many rows the library column shows.
    pub fn library_row_count(&self, app: &App) -> (r: usize)
        requires
            self.wf(),
        ensures
            r == library_rows(*self, *app),
    {
        match app.tab {
            Tab::Queue => self.library_pane.row_count(app),
            Tab::Directories => self.dir_browser_pane.entries.len(),
            tab => row_count(app, tab),
        }
    }

    fn hover_target_at(&self, app: &App, areas: &LayoutAreas, x: u16, y: u16) -> (t: HoverTarget)
        requires
            self.wf(),
        ensures
            t == hover_target(*self, *app, *areas, x, y),
    {
        let len = app.queue.tracks.len();
        if areas.playlist.contains(x, y) {
            let inner = bordered_inner(areas.playlist);
            if inner.contains(x, y) {
                match self.queue_pane.scroll_offset.checked_add((y - inner.y) as usize) {
                    Some(c) => if c < len { HoverTarget::Queue(c) } else { HoverTarget::Nothing },
                    None => HoverTarget::Nothing,
                }
            } else {
                HoverTarget::Nothing
            }
        } else if areas.library.contains(x, y) {
            let inner = bordered_inner(areas.library);
            let s = self.library_pane_scroll(app);
            let rows = self.library_row_count(app);
            if inner.contains(x, y) {
                match s.checked_add((y - inner.y) as usize) {
                    Some(c) => if c < rows { HoverTarget::Library(c) } else { HoverTarget::Nothing },
                    None => HoverTarget::Nothing,
                }
            } else {
                HoverTarget::Nothing
            }
        } else {
            HoverTarget::Nothing
        }
    }

    fn set_hovers(&mut self, app: &App, areas: &LayoutAreas, x: u16, y: u16)
        requires
            old(self).wf(),
        ensures
            hover_refresh_post(*old(self), *app, *areas, x, y, *final(self)),
            final(self).wf(),
    {
        let t = self.hover_target_at(app, areas, x, y);
        let tb = areas.tab_bar;
        self.hovered_tab = if tb.y <= y && (y as u32) < tb.y as u32 + tb.height as u32 {
            tab_hit_test(tb, x)
        } else {
            None
        };
        let ghost base = *self;
        self.queue_pane.hover_row = match t {
            HoverTarget::Queue(r) => Some(r),
            _ => None,
        };
        let lib_row: Option<usize> = match t {
            HoverTarget::Library(r) => Some(r),
            _ => None,
        };
        self.library_pane.hover_row = if app.tab == Tab::Queue { lib_row } else { None };
        self.dir_browser_pane.hover_row = if app.tab == Tab::Directories { lib_row } else { None };
        let listed = app.tab != Tab::Queue && app.tab != Tab::Directories;
        let slot = list_slot(app.tab);
        let ghost mid = *self;
        let mut i: usize = 0;
        while i < 5
            invariant
                i <= 5,
                self.list_panes@.len() == 5,
                base.list_panes@.len() == 5,
                mid.list_panes@ == base.list_panes@,
                *self == (Ui { list_panes: self.list_panes, ..mid }),
                listed == is_list_tab(app.tab),
                slot == spec_list_slot(app.tab),
                forall|k: int| i <= k < 5 ==> #[trigger] self.list_panes@[k] == base.list_panes@[k],
                forall|k: int| 0 <= k < i ==> #[trigger] self.list_panes@[k] == (ListPane {
                    hover_row: if listed && slot == k { lib_row } else { None },
                    ..base.list_panes@[k]
                }),
            decreases 5 - i,
        {
            let mut p = self.list_panes[i];
            p.hover_row = if listed && slot == i { lib_row } else { None };
            self.list_panes.set(i, p);
            i += 1;
        }
    }

    /// Redoes the highlighting from the last known pointer cell, so it stays
    /// current on terminals that report motion only now and then. Focus is
    /// left alone. Nothing happens while a modal is open.
    pub fn refresh_hover(&mut self, app: &App, terminal_area: Rect)
        requires
            old(self).wf(),
        ensures
            final(self).wf(),
            ({
                let o = *old(self);
                if o.show_about_modal || o.show_help_modal || o.show_search_modal || o.show_playlist_modal
                    || o.mouse_pos is None {
                    *final(self) == o
                } else {
                    let (px, py) = o.mouse_pos->0;
                    hover_refresh_post(o, *app, spec_layout_areas(terminal_area, o.pane_widths, o.right_split), px, py,
                        *final(self))
                }
            }),
    {
        if self.show_about_modal || self.show_help_modal || self.show_search_modal || self.show_playlist_modal {
            return;
        }
        let (x, y) = match self.mouse_pos {
            Some(p) => p,
            None => {
                return;
            },
        };
        let areas = LayoutAreas::compute(terminal_area, self.pane_widths, self.right_split);
        self.set_hovers(app, &areas, x, y);
    }

    fn drag_to(&mut self, areas: &LayoutAreas, x: u16, y: u16)
        requires
            old(self).wf(),
            old(self).dragging_border is Some,
        ensures
            dragged(*old(self), *areas, x, y, *final(self)),
            final(self).wf(),
    {
        let b = match self.dragging_border {
            Some(b) => b,
            None => {
                return;
            },
        };
        let lib = areas.library;
        let dash_w: u32 = lib.width as u32 + areas.playlist.width as u32 + areas.lyrics.width as u32;
        if dash_w == 0 {
            return;
        }
        let rel_x: u32 = if x >= lib.x { (x - lib.x) as u32 } else { 0 };
        let pct: u16 = ((rel_x * 100) / dash_w) as u16;
        let w = self.pane_widths;
        if b == 0 {
            if let Some((l, p)) = split_widths(pct, w[2], MIN_PANE_WIDTH) {
                self.pane_widths = [l, p, w[2]];
            }
        } else if b == 1 {
            let boundary = if pct >= w[0] { pct - w[0] } else { 0 };
            if let Some((p, r)) = split_widths(boundary, w[0], MIN_PANE_WIDTH) {
                self.pane_widths = [w[0], p, r];
            }
        } else if b == 2 {
            let info = areas.info_pane;
            let right_h: u32 = info.height as u32 + areas.lyrics.height as u32;
            if right_h > 0 {
                let rel_y: u32 = if y >= info.y { (y - info.y) as u32 } else { 0 };
                let v = (rel_y * 100) / right_h;
                self.right_split = if v < 10 { 10 } else if v > 90 { 90 } else { v as u16 };
            }
        }
        assert(self.pane_widths@ =~= drag_widths(w, b, pct)@);
    }

    fn border_hit_at(areas: &LayoutAreas, x: u16, y: u16) -> (r: Option<u8>)
        ensures
            r == border_hit(*areas, x, y),
    {
        let lib = areas.library;
        let play = areas.playlist;
        let info = areas.info_pane;
        let b0: u32 = lib.x as u32 + lib.width as u32;
        let b1: u32 = play.x as u32 + play.width as u32;
        let b2: u32 = info.y as u32 + info.height as u32;
        let xx = x as u32;
        let yy = y as u32;
        if !(lib.y <= y && yy < lib.y as u32 + lib.height as u32) {
            None
        } else if xx + 1 >= b0 && xx <= b0 + 1 {
            Some(0)
        } else if xx + 1 >= b1 && xx <= b1 + 1 {
            Some(1)
        } else if info.x <= x && xx < info.x as u32 + info.width as u32 && yy + 1 >= b2 && yy <= b2 + 1 {
            Some(2)
        } else {
            None
        }
    }

    fn queue_row_on(&self, app: &App, areas: &LayoutAreas, y: u16) -> (r: Option<usize>)
        ensures
            r == queue_row_at(*self, *app, *areas, y),
    {
        let inner = bordered_inner(areas.playlist);
        let len = app.queue.tracks.len();
        if y >= inner.y && (y as u32) < inner.y as u32 + inner.height as u32 {
            match self.queue_pane.scroll_offset.checked_add((y - inner.y) as usize) {
                Some(c) => if c < len { Some(c) } else { None },
                None => None,
            }
        } else {
            None
        }
    }

    fn library_row_on(&self, app: &App, areas: &LayoutAreas, y: u16) -> (r: Option<usize>)
        requires
            self.wf(),
        ensures
            r == library_row_at(*self, *app, *areas, y),
    {
        match clicked_row_in(areas.library, y) {
            Some(row) => {
                let s = self.library_pane_scroll(app);
                let rows = self.library_row_count(app);
                match s.checked_add(row) {
                    Some(c) => if c < rows { Some(c) } else { None },
                    None => None,
                }
            },
            None => None,
        }
    }

    fn answer(a: Option<AppAction>, q: Ghost<Option<Seq<usize>>>) -> (actions: Vec<AppAction>)
        requires
            match q@ {
                Some(t) => a matches Some(AppAction::AddToQueue(v)) && v@ == t,
                None => a is None,
            },
        ensures
            library_answer(q@, actions@),
    {
        let mut actions: Vec<AppAction> = Vec::new();
        if let Some(action) = a {
            actions.push(AppAction::FocusPane(FocusedPane::Playlist));
            actions.push(action);
        }
        actions
    }

    fn library_click(&mut self, app: &App, areas: &LayoutAreas, mouse: MouseEvent) -> (actions: Vec<AppAction>)
        requires
            old(self).wf(),
            mouse.kind == MouseKind::Down,
        ensures
            library_click_post(*old(self), *app, *areas, mouse.column, mouse.row, *final(self), actions@),
            final(self).wf(),
    {
        let enter = KeyEvent { code: KeyCode::Enter, modifiers: MOD_NONE };
        match app.tab {
            Tab::Queue => {
                self.library_pane.handle_mouse(mouse, areas.library, app);
                let ghost lp = self.library_pane;
                let a = self.library_pane.handle_key(enter, app);
                Self::answer(a, Ghost(library_activation(*app, lp.selected as int)))
            },
            Tab::Directories => {
                self.dir_browser_pane.handle_mouse(mouse, areas.library, app);
                let ghost dp = self.dir_browser_pane;
                let a = self.dir_browser_pane.handle_key(enter, app);
                Self::answer(a, Ghost(dir_key_queue(dp, KeyCode::Enter)))
            },
            tab => {
                let slot = list_slot(tab);
                let count = row_count(app, tab);
                let mut p = self.list_panes[slot];
                p.handle_mouse(mouse, areas.library, count);
                let go = p.handle_key(enter, count);
                self.list_panes.set(slot, p);
                let a = if go { activate(app, tab, p.selected) } else { None };
                Self::answer(a, Ghost(if count > 0 { activation(*app, tab, p.selected as int) } else { None }))
            },
        }
    }

    fn press(&mut self, app: &App, areas: &LayoutAreas, mouse: MouseEvent, now: u64) -> (actions: Vec<AppAction>)
        requires
            old(self).wf(),
            mouse.kind == MouseKind::Down,
        ensures
            press_post(*old(self), *app, *areas, mouse.column, mouse.row, now, *final(self), actions@),
            final(self).wf(),
    {
        let x = mouse.column;
        let y = mouse.row;
        let dbl = is_double_click(self.last_click, now, x, y);
        let queue_row = self.queue_row_on(app, areas, y);
        let library_row = self.library_row_on(app, areas, y);
        self.last_click = if dbl { None } else { Some((now, x, y)) };
        let mut actions: Vec<AppAction> = Vec::new();
        let tb = areas.tab_bar;
        if tb.y <= y && (y as u32) < tb.y as u32 + tb.height as u32 {
            if let Some(i) = tab_hit_test(tb, x) {
                actions.push(AppAction::SwitchTab(Tab::from_index(i)));
            }
            return actions;
        }
        let pb = areas.progress_bar;
        if pb.y <= y && (y as u32) < pb.y as u32 + pb.height as u32 {
            let g = progress_gauge_area(pb);
            if g.x <= x && (x as u32) < g.x as u32 + g.width as u32 {
                let dx: u128 = (x - g.x) as u128;
                let d: u128 = app.playback.duration_ms as u128;
                let gw: u128 = g.width as u128;
                assert((dx as int) * (d as int) / (gw as int) <= d as int) by (nonlinear_arith)
                    requires
                        (dx as int) < (gw as int),
                        0 <= (d as int),
                ;
                assert(dx * d <= u64::MAX as int * u16::MAX as int) by (nonlinear_arith)
                    requires
                        dx <= u16::MAX,
                        d <= u64::MAX,
                ;
                let ms = ((dx * d) / gw) as u64;
                actions.push(AppAction::Seek(ms));
            }
            return actions;
        }
        let in_playlist = areas.playlist.contains(x, y);
        let in_library = areas.library.contains(x, y);
        if dbl && in_playlist {
            if let Some(c) = queue_row {
                actions.push(AppAction::PlayQueueIndex(c));
                return actions;
            }
        }
        if in_library && library_row.is_some() {
            return self.library_click(app, areas, mouse);
        }
        if in_playlist {
            if let Some(c) = queue_row {
                actions.push(AppAction::SetQueueSelection(c));
            }
        }
        actions
    }

    fn wheel(&mut self, app: &App, areas: &LayoutAreas, mouse: MouseEvent) -> (actions: Vec<AppAction>)
        requires
            old(self).wf(),
            mouse.kind == MouseKind::ScrollDown || mouse.kind == MouseKind::ScrollUp,
        ensures
            wheel_post(*old(self), *app, *areas, mouse, *final(self), actions@),
            final(self).wf(),
    {
        let x = mouse.column;
        let y = mouse.row;
        let mut actions: Vec<AppAction> = Vec::new();
        if areas.library.contains(x, y) {
            match app.tab {
                Tab::Queue => {
                    self.library_pane.handle_mouse(mouse, areas.library, app);
                },
                Tab::Directories => {
                    self.dir_browser_pane.handle_mouse(mouse, areas.library, app);
                },
                tab => {
                    let slot = list_slot(tab);
                    let count = row_count(app, tab);
                    let mut p = self.list_panes[slot];
                    p.handle_mouse(mouse, areas.library, count);
                    self.list_panes.set(slot, p);
                },
            }
        } else if areas.playlist.contains(x, y) {
            if let Some(a) = self.queue_pane.handle_mouse(mouse, areas.playlist, app) {
                actions.push(a);
            }
        } else if areas.lyrics.contains(x, y) {
            self.lyrics_pane.handle_mouse(mouse, areas.lyrics, app);
        }
        actions
    }

    fn search_mouse(&mut self, mouse: MouseEvent, now: u64) -> (actions: Vec<AppAction>)
        ensures
            search_mouse_post(*old(self), mouse, now, *final(self), actions@),
            old(self).wf() ==> final(self).wf(),
    {
        let x = mouse.column;
        let y = mouse.row;
        let ra = self.search_modal_result_area;
        let n = self.search_modal_results.len();
        let in_results = ra.contains(x, y);
        let row: Option<usize> = if in_results {
            self.search_modal_scroll.checked_add((y - ra.y) as usize)
        } else {
            None
        };
        let on_row: Option<usize> = match row {
            Some(r) => if n > 0 && r < n { Some(r) } else { None },
            None => None,
        };
        self.mouse_pos = Some((x, y));
        self.search_modal_hover_row = on_row;
        let mut actions: Vec<AppAction> = Vec::new();
        match mouse.kind {
            MouseKind::Down => {
                if let Some(r) = on_row {
                    let dbl = is_double_click(self.last_click, now, x, y);
                    self.last_click = if dbl { None } else { Some((now, x, y)) };
                    if dbl {
                        let t = self.search_modal_results[r];
                        let mut v: Vec<usize> = Vec::new();
                        v.push(t);
                        assert(v@ =~= seq![t]);
                        actions.push(AppAction::AddToQueue(v));
                        self.close_search();
                    } else {
                        self.search_modal_selected = r;
                    }
                }
            },
            MouseKind::ScrollDown => {
                if in_results && n > 0 {
                    let h = self.search_modal_result_height;
                    let top = if n > h { n - h } else { 0 };
                    if self.search_modal_scroll < top {
                        self.search_modal_scroll = self.search_modal_scroll + 1;
                    }
                }
            },
            MouseKind::ScrollUp => {
                if in_results && self.search_modal_scroll > 0 {
                    self.search_modal_scroll = self.search_modal_scroll - 1;
                }
            },
            _ => {},
        }
        actions
    }

    /// Handles one mouse event at time `now` in a terminal of `terminal_area`.
    pub fn handle_mouse_event(&mut self, mouse: MouseEvent, app: &App, terminal_area: Rect, now: u64) -> (actions: Vec<AppAction>)
        requires
            old(self).wf(),
        ensures
            mouse_post(*old(self), *app, terminal_area, mouse, now, *final(self), actions@),
            final(self).wf(),
    {
        reveal(mouse_post);
        let x = mouse.column;
        let y = mouse.row;
        let areas = LayoutAreas::compute(terminal_area, self.pane_widths, self.right_split);
        if self.show_search_modal {
            return self.search_mouse(mouse, now);
        }
        if self.show_about_modal || self.show_help_modal || self.show_playlist_modal {
            self.mouse_pos = Some((x, y));
            return Vec::new();
        }
        let ghost o = *self;
        self.mouse_pos = Some((x, y));
        self.set_hovers(app, &areas, x, y);
        let ghost p = *self;
        assert(pointer_post(o, *app, areas, x, y, p));
        let hit = PaneHit::at(&areas, x, y);
        let mut actions: Vec<AppAction> = Vec::new();
        if mouse.kind == MouseKind::Down {
            if let Some(pane) = hit.pane() {
                if app.focus != pane {
                    actions.push(AppAction::FocusPane(pane));
                }
            }
        }
        let ghost focus = actions@;
        assert(focus == focus_actions(*app, areas, mouse));
        if self.dragging_border.is_some() {
            if mouse.kind == MouseKind::Drag || mouse.kind == MouseKind::Moved {
                self.drag_to(&areas, x, y);
                return actions;
            }
            if mouse.kind == MouseKind::Up {
                self.dragging_border = None;
                return actions;
            }
            self.dragging_border = None;
        }
        let ghost q = *self;
        let mut rest: Vec<AppAction> = match mouse.kind {
            MouseKind::Down => match Self::border_hit_at(&areas, x, y) {
                Some(b) => {
                    self.dragging_border = Some(b);
                    Vec::new()
                },
                None => self.press(app, &areas, mouse, now),
            },
            MouseKind::ScrollDown => self.wheel(app, &areas, mouse),
            MouseKind::ScrollUp => self.wheel(app, &areas, mouse),
            _ => Vec::new(),
        };
        let ghost rest_seq = rest@;
        actions.append(&mut rest);
        assert(actions@.skip(focus.len() as int) =~= rest_seq);
        assert(actions@.take(focus.len() as int) =~= focus);
        actions
    }
}

} // verus!
