use ommp::geometry::{
    center_x, centered_rect, clicked_row_in, list_slot, max_scroll,
    progress_gauge_area, resize_pane, sane_pane_widths, split_widths, tab_hit_test, LayoutAreas, PaneHit, Rect,
    DEFAULT_PANE_WIDTHS, MIN_PANE_WIDTH,
};
use ommp::state::{FocusedPane, Tab};
use ommp::panes::clicked_exec;

fn rect(x: u16, y: u16, width: u16, height: u16) -> Rect {
    Rect { x, y, width, height }
}

#[test]
fn split_widths_keeps_the_total_at_100_and_both_panes_above_the_minimum() {
    let (a, b) = split_widths(50, 20, MIN_PANE_WIDTH).unwrap();
    assert_eq!((a, b), (50, 30));
    assert_eq!(a + b + 20, 100);
}

#[test]
fn split_widths_survives_dragging_past_either_edge() {
    let (a, b) = split_widths(0, 20, MIN_PANE_WIDTH).unwrap();
    assert_eq!((a, b), (MIN_PANE_WIDTH, 80 - MIN_PANE_WIDTH));
    let (a, b) = split_widths(500, 20, MIN_PANE_WIDTH).unwrap();
    assert_eq!((a, b), (80 - MIN_PANE_WIDTH, MIN_PANE_WIDTH));
}

#[test]
fn split_widths_refuses_when_the_third_pane_leaves_no_room() {
    assert_eq!(split_widths(50, 85, MIN_PANE_WIDTH), None);
    assert_eq!(split_widths(50, 120, MIN_PANE_WIDTH), None);
    assert_eq!(split_widths(50, 80, MIN_PANE_WIDTH), Some((10, 10)));
}

#[test]
fn pane_widths_reject_anything_layout_cannot_use() {
    assert_eq!(sane_pane_widths([20, 60, 20]), [20, 60, 20]);
    assert_eq!(sane_pane_widths([10, 80, 10]), [10, 80, 10]);
    assert_eq!(sane_pane_widths([10, 5, 85]), DEFAULT_PANE_WIDTHS);
    assert_eq!(sane_pane_widths([20, 20, 20]), DEFAULT_PANE_WIDTHS);
    assert_eq!(sane_pane_widths([0, 0, 0]), DEFAULT_PANE_WIDTHS);
}

#[test]
fn max_scroll_stops_before_the_list_runs_out() {
    assert_eq!(max_scroll(100, 30), 70);
    assert_eq!(max_scroll(10, 30), 0);
    assert_eq!(max_scroll(0, 30), 0);
}

#[test]
fn a_bordered_pane_loses_one_cell_on_each_side() {
    // Inside (2, 3, 10, 6) the rows start at (3, 4) and span 8 by 4 cells.
    let area = rect(2, 3, 10, 6);
    assert_eq!(clicked_exec(area, 3, 4, 0, 100), Some(0));
    assert_eq!(clicked_exec(area, 10, 7, 0, 100), Some(3));
    assert_eq!(clicked_exec(area, 2, 4, 0, 100), None);
    assert_eq!(clicked_exec(area, 11, 4, 0, 100), None);
    assert_eq!(clicked_exec(area, 3, 3, 0, 100), None);
    assert_eq!(clicked_exec(area, 3, 8, 0, 100), None);
    // A pane too small for its borders has no inside at all.
    assert_eq!(clicked_exec(rect(0, 0, 1, 1), 0, 0, 0, 100), None);
    assert_eq!(clicked_exec(rect(0, 0, 1, 1), 1, 1, 0, 100), None);
}

#[test]
fn clicks_on_a_border_hit_no_row() {
    let area = rect(0, 5, 20, 10);
    assert_eq!(clicked_row_in(area, 5), None);
    assert_eq!(clicked_row_in(area, 6), Some(0));
    assert_eq!(clicked_row_in(area, 13), Some(7));
    assert_eq!(clicked_row_in(area, 14), None);
}

#[test]
fn the_dashboard_is_laid_out_by_the_pane_percentages() {
    let a = LayoutAreas::compute(rect(0, 0, 100, 40), [20, 60, 20], 50);
    assert_eq!(a.status_bar, rect(0, 0, 100, 4));
    assert_eq!(a.tab_bar, rect(0, 4, 100, 3));
    assert_eq!(a.library, rect(0, 7, 20, 30));
    assert_eq!(a.playlist, rect(20, 7, 60, 30));
    assert_eq!(a.info_pane, rect(80, 7, 20, 15));
    assert_eq!(a.lyrics, rect(80, 22, 20, 15));
    assert_eq!(a.progress_bar, rect(0, 37, 100, 3));
    let hit = PaneHit::at(&a, 25, 10);
    assert_eq!(hit.pane(), Some(FocusedPane::Playlist));
    assert_eq!(PaneHit::at(&a, 25, 2).pane(), None);
}

#[test]
fn the_progress_gauge_sits_between_icon_and_time() {
    let g = progress_gauge_area(rect(0, 37, 100, 3));
    assert_eq!(g, rect(4, 38, 82, 1));
}

#[test]
fn a_centred_rect_takes_the_given_share() {
    let r = centered_rect(50, 60, rect(0, 0, 100, 50));
    assert_eq!(r, rect(25, 10, 50, 30));
}

#[test]
fn tab_titles_are_hit_in_the_centred_strip() {
    let bar = rect(0, 4, 100, 3);
    // Inner width 98, strip 67 wide: 15 columns of padding before "Queue".
    assert_eq!(tab_hit_test(bar, 15), None);
    assert_eq!(tab_hit_test(bar, 16), Some(0));
    assert_eq!(tab_hit_test(bar, 20), Some(0));
    assert_eq!(tab_hit_test(bar, 21), Some(1));
    assert_eq!(tab_hit_test(bar, 82), Some(6));
    assert_eq!(tab_hit_test(bar, 83), None);
    assert_eq!(tab_hit_test(bar, 0), None);
}

#[test]
fn keyboard_resizing_keeps_the_widths_sane() {
    let mut w = [20, 60, 20];
    resize_pane(&mut w, FocusedPane::Library, 2);
    assert_eq!(w, [22, 58, 20]);
    let mut w = [80, 10, 10];
    resize_pane(&mut w, FocusedPane::Library, 2);
    assert_eq!(w, [80, 10, 10]);
    let mut w = [20, 60, 20];
    resize_pane(&mut w, FocusedPane::Playlist, -2);
    assert_eq!(w, [22, 58, 20]);
    let mut w = [20, 60, 20];
    resize_pane(&mut w, FocusedPane::Lyrics, 2);
    assert_eq!(w, [20, 62, 18]);
    let mut w = [10, 80, 10];
    resize_pane(&mut w, FocusedPane::Lyrics, 2);
    assert_eq!(w, [10, 80, 10]);
}

#[test]
fn text_is_centred_with_the_spare_columns_split() {
    assert_eq!(center_x(10, 50, 20), 25);
    assert_eq!(center_x(10, 5, 20), 10);
}

#[test]
fn list_tabs_map_to_their_own_slots() {
    assert_eq!(list_slot(Tab::Artists), 0);
    assert_eq!(list_slot(Tab::Albums), 1);
    assert_eq!(list_slot(Tab::Genre), 2);
    assert_eq!(list_slot(Tab::Format), 3);
    assert_eq!(list_slot(Tab::Playlists), 4);
}
