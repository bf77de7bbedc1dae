//! Screen rectangles, the dashboard's pane-width arithmetic and the hit
//! tests that map a pointer position to what lies under it.

use vstd::prelude::*;
use crate::state::{FocusedPane, Tab, tab_title_len};
use ratatui::layout::{Constraint as TuiConstraint, Direction as TuiDirection, Layout as TuiLayout, Rect as TuiRect};
use ratatui::widgets::{Block as TuiBlock, Borders as TuiBorders};

verus! {

/// The smallest share, in percent, that a dashboard pane may shrink to.
pub const MIN_PANE_WIDTH: u16 = 10;

/// The pane widths a fresh session starts with.
pub const DEFAULT_PANE_WIDTHS: [u16; 3] = [20, 60, 20];

/// A terminal rectangle, in cells.
#[derive(Debug, Clone, Copy, PartialEq, Eq, Structural, Default)]
pub struct Rect {
    pub x: u16,
    pub y: u16,
    pub width: u16,
    pub height: u16,
}

impl Rect {
    pub open spec fn spec_right(self) -> int {
        self.x + self.width
    }

    pub open spec fn spec_bottom(self) -> int {
        self.y + self.height
    }

    /// Whether the cell (x, y) lies inside the rectangle.
    pub open spec fn holds(self, x: int, y: int) -> bool {
        self.x <= x < self.x + self.width && self.y <= y < self.y + self.height
    }

    pub fn contains(&self, x: u16, y: u16) -> (r: bool)
        ensures
            r == self.holds(x as int, y as int),
    {
        x >= self.x && (x as u32) < self.x as u32 + self.width as u32 && y >= self.y
            && (y as u32) < self.y as u32 + self.height as u32
    }
}

pub open spec fn sat_add(a: int, b: int) -> int {
    if a + b > u16::MAX { u16::MAX as int } else { a + b }
}

pub open spec fn sat_sub(a: int, b: int) -> int {
    if a - b < 0 { 0 } else { a - b }
}

pub open spec fn min_int(a: int, b: int) -> int {
    if a <= b { a } else { b }
}

/// The area inside a one-cell border on every side.
pub open spec fn spec_bordered_inner(r: Rect) -> Rect {
    Rect {
        x: min_int(sat_add(r.x as int, 1), sat_add(r.x as int, r.width as int)) as u16,
        y: min_int(sat_add(r.y as int, 1), sat_add(r.y as int, r.height as int)) as u16,
        width: sat_sub(r.width as int, 2) as u16,
        height: sat_sub(r.height as int, 2) as u16,
    }
}

/// The inner area of a ratatui `Block` with all four borders and no padding.
/// `Block::inner` moves the left and top edges in by one cell (never past the
/// right or bottom edge, with saturating addition) and shrinks the width and
/// height by two, saturating at zero.
#[verifier::external_body]
pub(crate) fn bordered_inner(r: Rect) -> (inner: Rect)
    ensures
        inner == spec_bordered_inner(r),
{
    let area = TuiRect { x: r.x, y: r.y, width: r.width, height: r.height };
    let i = TuiBlock::default().borders(TuiBorders::ALL).inner(area);
    Rect { x: i.x, y: i.y, width: i.width, height: i.height }
}

/// The rectangles of the dashboard: the status and tab bars on top, the
/// three panes (the right one split into info and lyrics), and the progress
/// bar at the bottom.
#[derive(Debug, Clone, Copy, PartialEq, Eq, Structural)]
pub struct LayoutAreas {
    pub status_bar: Rect,
    pub tab_bar: Rect,
    pub library: Rect,
    pub playlist: Rect,
    pub info_pane: Rect,
    pub lyrics: Rect,
    pub progress_bar: Rect,
}

/// A size constraint for one slot of a layout split.
#[derive(Debug, Clone, Copy, PartialEq, Eq, Structural)]
pub enum Constraint {
    Length(u16),
    Min(u16),
    Percentage(u16),
}

/// The axis along which a layout split stacks its slots.
#[derive(Debug, Clone, Copy, PartialEq, Eq, Structural)]
pub enum Direction {
    Vertical,
    Horizontal,
}

/// What ratatui's constraint solver makes of splitting `area` along
/// `direction` by `constraints`.
pub uninterp spec fn spec_split(area: Rect, direction: Direction, constraints: Seq<Constraint>) -> Seq<Rect>;

/// Splits `area` with ratatui's `Layout::split`, which returns one rectangle
/// per constraint, in order.
#[verifier::external_body]
pub(crate) fn split(area: Rect, direction: Direction, constraints: &[Constraint]) -> (r: Vec<Rect>)
    ensures
        r@ == spec_split(area, direction, constraints@),
        r@.len() == constraints@.len(),
{
    let dir = match direction { Direction::Vertical => TuiDirection::Vertical, Direction::Horizontal => TuiDirection::Horizontal };
    let cs: Vec<TuiConstraint> = constraints.iter().map(|c| match *c {
        Constraint::Length(n) => TuiConstraint::Length(n),
        Constraint::Min(n) => TuiConstraint::Min(n),
        Constraint::Percentage(n) => TuiConstraint::Percentage(n),
    }).collect();
    let tui = TuiRect { x: area.x, y: area.y, width: area.width, height: area.height };
    let rects = TuiLayout::default().direction(dir).constraints(cs).split(tui);
    rects.iter().map(|q| Rect { x: q.x, y: q.y, width: q.width, height: q.height }).collect()
}

pub open spec fn dashboard_rows(area: Rect) -> Seq<Rect> {
    spec_split(area, Direction::Vertical, seq![Constraint::Length(4), Constraint::Length(3), Constraint::Min(10), Constraint::Length(3)])
}

pub open spec fn dashboard_columns(area: Rect, w: [u16; 3]) -> Seq<Rect> {
    spec_split(dashboard_rows(area)[2], Direction::Horizontal,
        seq![Constraint::Percentage(w[0]), Constraint::Percentage(w[1]), Constraint::Percentage(w[2])])
}

pub open spec fn right_column(area: Rect, w: [u16; 3], right_split: u16) -> Seq<Rect> {
    spec_split(dashboard_columns(area, w)[2], Direction::Vertical,
        seq![Constraint::Percentage(right_split), Constraint::Percentage((100 - right_split) as u16)])
}

/// The dashboard layout: a 4-row status bar, a 3-row tab bar, the dashboard
/// (at least 10 rows) and a 3-row progress bar; the dashboard in three
/// columns by the pane percentages; the right column split between info and
/// lyrics by `right_split` percent.
pub open spec fn spec_layout_areas(area: Rect, w: [u16; 3], right_split: u16) -> LayoutAreas {
    LayoutAreas {
        status_bar: dashboard_rows(area)[0],
        tab_bar: dashboard_rows(area)[1],
        library: dashboard_columns(area, w)[0],
        playlist: dashboard_columns(area, w)[1],
        info_pane: right_column(area, w, right_split)[0],
        lyrics: right_column(area, w, right_split)[1],
        progress_bar: dashboard_rows(area)[3],
    }
}

impl LayoutAreas {
    /// The dashboard's areas in `area`: status bar, tab bar, the three
    /// columns at `pane_widths` percent, the right column split at
    /// `right_split` percent, and the progress bar.
    pub fn compute(area: Rect, pane_widths: [u16; 3], right_split: u16) -> (r: LayoutAreas)
        requires
            right_split <= 100,
        ensures
            r == spec_layout_areas(area, pane_widths, right_split),
    {
        let rows = split(area, Direction::Vertical,
            &[Constraint::Length(4), Constraint::Length(3), Constraint::Min(10), Constraint::Length(3)]);
        assert(rows@ == dashboard_rows(area));
        let cols = split(rows[2], Direction::Horizontal,
            &[Constraint::Percentage(pane_widths[0]), Constraint::Percentage(pane_widths[1]),
              Constraint::Percentage(pane_widths[2])]);
        assert(cols@ == dashboard_columns(area, pane_widths));
        let right = split(cols[2], Direction::Vertical,
            &[Constraint::Percentage(right_split), Constraint::Percentage(100 - right_split)]);
        assert(right@ == right_column(area, pane_widths, right_split));
        LayoutAreas {
            status_bar: rows[0],
            tab_bar: rows[1],
            library: cols[0],
            playlist: cols[1],
            info_pane: right[0],
            lyrics: right[1],
            progress_bar: rows[3],
        }
    }
}

/// The gauge column of the progress bar: the bar's inner row split into a
/// 3-column icon, the gauge (at least 10 columns) and a 13-column time.
pub open spec fn spec_progress_gauge_area(area: Rect) -> Rect {
    spec_split(spec_bordered_inner(area), Direction::Horizontal,
        seq![Constraint::Length(3), Constraint::Min(10), Constraint::Length(13)])[1]
}

/// The gauge column of the progress bar, used for click-to-seek.
pub fn progress_gauge_area(area: Rect) -> (r: Rect)
    ensures
        r == spec_progress_gauge_area(area),
{
    let inner = bordered_inner(area);
    let cols = split(inner, Direction::Horizontal,
        &[Constraint::Length(3), Constraint::Min(10), Constraint::Length(13)]);
    assert(cols@ == spec_split(spec_bordered_inner(area), Direction::Horizontal,
        seq![Constraint::Length(3), Constraint::Min(10), Constraint::Length(13)]));
    cols[1]
}

/// A rect of `percent_x` by `percent_y` percent, centred in `area`.
pub open spec fn spec_centered_rect(percent_x: u16, percent_y: u16, area: Rect) -> Rect {
    let my = ((100 - percent_y) / 2) as u16;
    let mx = ((100 - percent_x) / 2) as u16;
    let v = spec_split(area, Direction::Vertical,
        seq![Constraint::Percentage(my), Constraint::Percentage(percent_y), Constraint::Percentage(my)]);
    spec_split(v[1], Direction::Horizontal,
        seq![Constraint::Percentage(mx), Constraint::Percentage(percent_x), Constraint::Percentage(mx)])[1]
}

pub fn centered_rect(percent_x: u16, percent_y: u16, area: Rect) -> (r: Rect)
    requires
        percent_x <= 100,
        percent_y <= 100,
    ensures
        r == spec_centered_rect(percent_x, percent_y, area),
{
    let my = (100 - percent_y) / 2;
    let mx = (100 - percent_x) / 2;
    let v = split(area, Direction::Vertical,
        &[Constraint::Percentage(my), Constraint::Percentage(percent_y), Constraint::Percentage(my)]);
    let h = split(v[1], Direction::Horizontal,
        &[Constraint::Percentage(mx), Constraint::Percentage(percent_x), Constraint::Percentage(mx)]);
    assert(v@ == spec_split(area, Direction::Vertical,
        seq![Constraint::Percentage(my), Constraint::Percentage(percent_y), Constraint::Percentage(my)]));
    assert(h@ == spec_split(v@[1], Direction::Horizontal,
        seq![Constraint::Percentage(mx), Constraint::Percentage(percent_x), Constraint::Percentage(mx)]));
    h[1]
}

/// Pane widths that the layout and the resize code can work with: each at
/// least the minimum, summing to exactly 100.
pub open spec fn widths_sane(w: [u16; 3]) -> bool {
    &&& w[0] >= MIN_PANE_WIDTH
    &&& w[1] >= MIN_PANE_WIDTH
    &&& w[2] >= MIN_PANE_WIDTH
    &&& w[0] + w[1] + w[2] == 100
}

/// Persisted pane widths, kept only when they are sane; anything else falls
/// back to the defaults rather than being repaired.
pub fn sane_pane_widths(w: [u16; 3]) -> (r: [u16; 3])
    ensures
        widths_sane(w) ==> r == w,
        !widths_sane(w) ==> r == DEFAULT_PANE_WIDTHS,
        widths_sane(r),
{
    let sum: u32 = w[0] as u32 + w[1] as u32 + w[2] as u32;
    if w[0] >= 10 && w[1] >= 10 && w[2] >= 10 && sum == 100 {
        w
    } else {
        DEFAULT_PANE_WIDTHS
    }
}

/// The first pane's share when the border between two panes is dragged to
/// `boundary_pct` and `fixed` percent belongs to the third pane.
pub open spec fn spec_split_widths(boundary_pct: u16, fixed: u16, min_w: u16) -> Option<(u16, u16)> {
    if fixed > 100 || 100 - fixed < 2 * min_w {
        None
    } else {
        let budget = 100 - fixed;
        let first = if boundary_pct < min_w {
            min_w as int
        } else if boundary_pct > budget - min_w {
            budget - min_w
        } else {
            boundary_pct as int
        };
        Some((first as u16, (budget - first) as u16))
    }
}

/// Split the budget left over after `fixed` between the two panes flanking a
/// dragged border, placing the boundary at `boundary_pct` clamped so both keep
/// `min_w`. None when there is not room for both.
pub fn split_widths(boundary_pct: u16, fixed: u16, min_w: u16) -> (r: Option<(u16, u16)>)
    requires
        2 * min_w <= u16::MAX,
    ensures
        r == spec_split_widths(boundary_pct, fixed, min_w),
        r matches Some((a, b)) ==> a + b + fixed == 100 && a >= min_w && b >= min_w,
{
    if fixed > 100 {
        return None;
    }
    let budget = 100 - fixed;
    if budget < min_w * 2 {
        return None;
    }
    let hi = budget - min_w;
    let first = if boundary_pct < min_w {
        min_w
    } else if boundary_pct > hi {
        hi
    } else {
        boundary_pct
    };
    Some((first, budget - first))
}

pub open spec fn clamp_int(v: int, lo: int, hi: int) -> int {
    if v < lo { lo } else if v > hi { hi } else { v }
}

pub open spec fn max_int(a: int, b: int) -> int {
    if a >= b { a } else { b }
}

/// Pane widths after resizing the focused pane by `delta` points; the
/// neighbouring pane gives or takes the difference.
pub open spec fn spec_resize(w: [u16; 3], focus: FocusedPane, delta: int) -> [u16; 3] {
    match focus {
        FocusedPane::Library => {
            let new_lib = clamp_int(w[0] + delta, 10, 80);
            let diff = new_lib - w[0];
            let new_play = max_int(w[1] - diff, 10);
            let actual = w[1] - new_play;
            [(w[0] + actual) as u16, new_play as u16, w[2]]
        },
        FocusedPane::Playlist => {
            if delta < 0 {
                if w[1] > 10 + (-delta) - 1 {
                    [(w[0] - delta) as u16, (w[1] + delta) as u16, w[2]]
                } else {
                    w
                }
            } else {
                if w[2] > 10 + delta - 1 {
                    [w[0], (w[1] + delta) as u16, (w[2] - delta) as u16]
                } else {
                    w
                }
            }
        },
        FocusedPane::Lyrics => {
            let new_lyr = clamp_int(w[2] - delta, 10, 80);
            let diff = w[2] - new_lyr;
            let new_play = max_int(w[1] + diff, 10);
            let actual = new_play - w[1];
            [w[0], new_play as u16, (w[2] - actual) as u16]
        },
    }
}

/// Resize the focused pane by `delta` percentage points: positive grows it
/// rightward, negative shrinks it. Widths stay sane.
pub fn resize_pane(w: &mut [u16; 3], focus: FocusedPane, delta: i16)
    requires
        widths_sane(*old(w)),
        -100 <= delta <= 100,
    ensures
        *final(w) == spec_resize(*old(w), focus, delta as int),
        widths_sane(*final(w)),
{
    let w0 = w[0] as i32;
    let w1 = w[1] as i32;
    let w2 = w[2] as i32;
    let d = delta as i32;
    match focus {
        FocusedPane::Library => {
            let t = w0 + d;
            let new_lib = if t < 10 { 10 } else if t > 80 { 80 } else { t };
            let diff = new_lib - w0;
            let new_play = if w1 - diff >= 10 { w1 - diff } else { 10 };
            let actual = w1 - new_play;
            *w = [(w0 + actual) as u16, new_play as u16, w[2]];
        },
        FocusedPane::Playlist => {
            if d < 0 {
                if w1 > 10 + (-d) - 1 {
                    *w = [(w0 - d) as u16, (w1 + d) as u16, w[2]];
                }
            } else {
                if w2 > 10 + d - 1 {
                    *w = [w[0], (w1 + d) as u16, (w2 - d) as u16];
                }
            }
        },
        FocusedPane::Lyrics => {
            let t = w2 - d;
            let new_lyr = if t < 10 { 10 } else if t > 80 { 80 } else { t };
            let diff = w2 - new_lyr;
            let new_play = if w1 + diff >= 10 { w1 + diff } else { 10 };
            let actual = new_play - w1;
            *w = [w[0], new_play as u16, (w2 - actual) as u16];
        },
    }
    assert(w@ =~= spec_resize(*old(w), focus, delta as int)@);
}

/// Which dashboard pane a point lands in.
#[derive(Debug, Clone, Copy, PartialEq, Eq, Structural)]
pub struct PaneHit {
    pub library: bool,
    pub playlist: bool,
    pub lyrics: bool,
}

impl PaneHit {
    pub fn at(areas: &LayoutAreas, x: u16, y: u16) -> (h: PaneHit)
        ensures
            h.library == areas.library.holds(x as int, y as int),
            h.playlist == areas.playlist.holds(x as int, y as int),
            h.lyrics == areas.lyrics.holds(x as int, y as int),
    {
        PaneHit {
            library: areas.library.contains(x, y),
            playlist: areas.playlist.contains(x, y),
            lyrics: areas.lyrics.contains(x, y),
        }
    }

    /// The pane under the point, preferring library, then playlist, then lyrics.
    pub open spec fn spec_pane(self) -> Option<FocusedPane> {
        if self.library {
            Some(FocusedPane::Library)
        } else if self.playlist {
            Some(FocusedPane::Playlist)
        } else if self.lyrics {
            Some(FocusedPane::Lyrics)
        } else {
            None
        }
    }

    pub fn pane(&self) -> (p: Option<FocusedPane>)
        ensures
            p == self.spec_pane(),
    {
        if self.library {
            Some(FocusedPane::Library)
        } else if self.playlist {
            Some(FocusedPane::Playlist)
        } else if self.lyrics {
            Some(FocusedPane::Lyrics)
        } else {
            None
        }
    }
}

/// Row index under `y` inside a bordered pane, or None on the border itself.
pub open spec fn spec_clicked_row(area: Rect, y: int) -> Option<usize> {
    let inner = spec_bordered_inner(area);
    if inner.y <= y < inner.y + inner.height {
        Some((y - inner.y) as usize)
    } else {
        None
    }
}

pub fn clicked_row_in(area: Rect, y: u16) -> (r: Option<usize>)
    ensures
        r == spec_clicked_row(area, y as int),
{
    let inner = bordered_inner(area);
    if y >= inner.y && (y as u32) < inner.y as u32 + inner.height as u32 {
        Some((y - inner.y) as usize)
    } else {
        None
    }
}

/// Largest scroll offset that still fills the viewport.
pub fn max_scroll(count: usize, viewport: usize) -> (r: usize)
    ensures
        r == sat_sub(count as int, viewport as int),
{
    if count > viewport { count - viewport } else { 0 }
}

/// The x coordinate that centres `display_w` columns in a span of `area_w`
/// columns starting at `area_x`.
pub fn center_x(area_x: u16, area_w: u16, display_w: u16) -> (r: u16)
    requires
        area_x + sat_sub(area_w as int, display_w as int) / 2 <= u16::MAX,
    ensures
        r == area_x + sat_sub(area_w as int, display_w as int) / 2,
{
    let room = if area_w > display_w { area_w - display_w } else { 0 };
    area_x + room / 2
}

/// Index into the five list panes for each list tab. Queue and Directories
/// have their own panes and fall through to the Playlists slot.
pub open spec fn spec_list_slot(tab: Tab) -> usize {
    match tab {
        Tab::Artists => 0,
        Tab::Albums => 1,
        Tab::Genre => 2,
        Tab::Format => 3,
        _ => 4,
    }
}

pub fn list_slot(tab: Tab) -> (r: usize)
    ensures
        r == spec_list_slot(tab),
        r < 5,
{
    match tab {
        Tab::Artists => 0,
        Tab::Albums => 1,
        Tab::Genre => 2,
        Tab::Format => 3,
        _ => 4,
    }
}

/// Width of the divider drawn between two tab titles.
pub const TAB_DIVIDER: usize = 3;

/// Column, counted from the start of the centred tab strip, at which the
/// title of the tab at position `i` ends.
pub open spec fn tab_end(i: int) -> int
    decreases i,
{
    if i <= 0 {
        tab_title_len(crate::state::tab_at(0)) as int
    } else {
        tab_end(i - 1) + TAB_DIVIDER + tab_title_len(crate::state::tab_at(i))
    }
}

/// Total width of the tab strip.
pub open spec fn tab_strip_width() -> int {
    tab_end(6)
}

/// The tab whose title, or the divider in front of it, covers strip column
/// `c`: the first tab whose title ends after `c`.
pub open spec fn spec_tab_at_column(c: int) -> Option<usize> {
    if c < tab_end(0) {
        Some(0)
    } else if c < tab_end(1) {
        Some(1)
    } else if c < tab_end(2) {
        Some(2)
    } else if c < tab_end(3) {
        Some(3)
    } else if c < tab_end(4) {
        Some(4)
    } else if c < tab_end(5) {
        Some(5)
    } else if c < tab_end(6) {
        Some(6)
    } else {
        None
    }
}

/// Which tab a click at column `mouse_x` of the tab bar selects.
pub open spec fn spec_tab_hit(area: Rect, mouse_x: int) -> Option<usize> {
    let inner = spec_bordered_inner(area);
    if mouse_x < inner.x || mouse_x >= inner.x + inner.width {
        None
    } else {
        let pad_left = if inner.width > tab_strip_width() {
            (inner.width - tab_strip_width()) / 2
        } else {
            0
        };
        let rel = mouse_x - inner.x;
        if rel < pad_left {
            None
        } else {
            spec_tab_at_column(rel - pad_left)
        }
    }
}

proof fn lemma_tab_ends()
    ensures
        tab_end(0) == 5,
        tab_end(1) == 19,
        tab_end(2) == 29,
        tab_end(3) == 38,
        tab_end(4) == 46,
        tab_end(5) == 55,
        tab_end(6) == 67,
{
    reveal_with_fuel(tab_end, 8);
}

/// Returns which tab index a click at `mouse_x` lands on, the tab strip being
/// centred in the bordered tab bar.
pub fn tab_hit_test(area: Rect, mouse_x: u16) -> (r: Option<usize>)
    ensures
        r == spec_tab_hit(area, mouse_x as int),
        r matches Some(i) ==> i < 7,
{
    proof {
        lemma_tab_ends();
    }
    let inner = bordered_inner(area);
    if mouse_x < inner.x || mouse_x as u32 >= inner.x as u32 + inner.width as u32 {
        return None;
    }
    let tabs = Tab::all();
    let mut total_width: usize = 0;
    let mut i: usize = 0;
    while i < 7
        invariant
            i <= 7,
            forall|k: int| 0 <= k < 7 ==> #[trigger] tabs@[k] == crate::state::tab_at(k),
            i == 0 ==> total_width == 0,
            i > 0 ==> total_width == tab_end(i - 1),
            total_width <= 67,
            tab_end(0) == 5 && tab_end(1) == 19 && tab_end(2) == 29 && tab_end(3) == 38
                && tab_end(4) == 46 && tab_end(5) == 55 && tab_end(6) == 67,
        decreases 7 - i,
    {
        if i > 0 {
            total_width += TAB_DIVIDER;
        }
        total_width += tabs[i].title_len();
        i += 1;
    }
    let inner_w = inner.width as usize;
    let pad_left = if inner_w > total_width { (inner_w - total_width) / 2 } else { 0 };
    let rel_x = (mouse_x - inner.x) as usize;
    if rel_x < pad_left {
        return None;
    }
    let content_x = rel_x - pad_left;
    assert(spec_tab_hit(area, mouse_x as int) == spec_tab_at_column(content_x as int));
    let mut pos: usize = 0;
    let mut j: usize = 0;
    while j < 7
        invariant
            j <= 7,
            forall|k: int| 0 <= k < 7 ==> #[trigger] tabs@[k] == crate::state::tab_at(k),
            j == 0 ==> pos == 0,
            j > 0 ==> pos == tab_end(j - 1),
            j > 0 ==> content_x >= tab_end(j - 1),
            pos <= 67,
            total_width == 67,
            spec_tab_hit(area, mouse_x as int) == spec_tab_at_column(content_x as int),
            tab_end(0) == 5 && tab_end(1) == 19 && tab_end(2) == 29 && tab_end(3) == 38
                && tab_end(4) == 46 && tab_end(5) == 55 && tab_end(6) == 67,
        decreases 7 - j,
    {
        if j > 0 {
            pos += TAB_DIVIDER;
        }
        let title_len = tabs[j].title_len();
        if content_x < pos + title_len {
            assert(pos + title_len == tab_end(j as int));
            assert(spec_tab_at_column(content_x as int) == Some(j)) by {
                if j == 0 {} else if j == 1 {} else if j == 2 {} else if j == 3 {}
                else if j == 4 {} else if j == 5 {} else {}
            }
            return Some(j);
        }
        pos += title_len;
        j += 1;
    }
    None
}

} // verus!
