use ommp::geometry::{LayoutAreas, Rect};
use ommp::input::{KeyCode, KeyEvent, MouseEvent, MouseKind, MOD_CONTROL, MOD_NONE, MOD_SHIFT};
use ommp::keys::{update_queue_selection, Link};
use ommp::library::Track;
use ommp::session::{App, AppAction};
use ommp::state::{FocusedPane, InfoView, Tab};
use ommp::ui::{PlaylistModalMode, Ui, SPLASH_END_MS, SPLASH_FADE_OUT_AT_MS};

fn track(path: &str, title: &str, artist: &str, album: &str) -> Track {
    Track {
        path: path.to_string(),
        title: title.to_string(),
        artist: artist.to_string(),
        album: album.to_string(),
        album_artist: String::new(),
        genre: String::new(),
        track_number: None,
        duration_ms: 100_000,
        bitrate: None,
        lyrics: None,
    }
}

fn app() -> App {
    let mut app = App::new("/m".to_string());
    app.library.tracks.push(track("/m/A/1.flac", "One", "Amy", "Blue"));
    app.library.tracks.push(track("/m/A/2.flac", "Two", "Amy", "Blue"));
    app.library.tracks.push(track("/m/B/3.mp3", "Three", "Bo", "Red"));
    app
}

fn key(code: KeyCode) -> KeyEvent {
    KeyEvent { code, modifiers: MOD_NONE }
}

fn ui() -> Ui {
    let mut ui = Ui::new("/m".to_string(), 10_000);
    ui.show_splash = false;
    ui.splash_start = None;
    ui
}

fn elapsed(ui: &Ui, now: u64) -> u64 {
    ui.splash_start.map(|s| now - s).unwrap_or(0)
}

fn press(ui: &mut Ui, app: &App, code: KeyCode) -> Vec<AppAction> {
    ui.handle_key_event(key(code), app).0
}

fn area() -> Rect {
    Rect { x: 0, y: 0, width: 100, height: 40 }
}

fn mouse(kind: MouseKind, column: u16, row: u16) -> MouseEvent {
    MouseEvent { kind, column, row }
}

#[test]
fn a_keypress_skips_the_splash_hold() {
    let mut ui = Ui::new(".".to_string(), 10_000);
    assert!(ui.show_splash);
    assert!(elapsed(&ui, 10_000) < SPLASH_FADE_OUT_AT_MS);
    ui.begin_splash_fade_out(10_000);
    assert!(elapsed(&ui, 10_000) >= SPLASH_FADE_OUT_AT_MS);
    assert!(elapsed(&ui, 10_000) < SPLASH_END_MS, "the fade-out still plays");
}

#[test]
fn skipping_twice_does_not_cut_the_fade_out_short() {
    let mut ui = Ui::new(".".to_string(), 10_000);
    ui.begin_splash_fade_out(10_000);
    let first = elapsed(&ui, 10_000);
    ui.begin_splash_fade_out(10_000);
    assert!(elapsed(&ui, 10_000) >= first, "must not jump past the end");
    assert!(elapsed(&ui, 10_000) < SPLASH_END_MS);
}

#[test]
fn skipping_a_dismissed_splash_is_a_no_op() {
    let mut ui = Ui::new(".".to_string(), 10_000);
    ui.show_splash = false;
    ui.splash_start = None;
    ui.begin_splash_fade_out(10_000);
    assert!(ui.splash_start.is_none());
}

#[test]
fn the_splash_ends_after_its_timeline() {
    let mut ui = Ui::new(".".to_string(), 10_000);
    let app = app();
    ui.on_tick(&app, 11_999, area());
    assert!(ui.show_splash);
    ui.on_tick(&app, 12_000, area());
    assert!(!ui.show_splash);
    assert!(ui.splash_start.is_none());
}

#[test]
fn a_key_during_the_splash_does_nothing_else() {
    let mut ui = Ui::new(".".to_string(), 10_000);
    let mut app = app();
    let (actions, link) = ui.on_key(&mut app, key(KeyCode::Char('q')), 10_100);
    assert!(actions.is_empty() && link.is_none());
    assert_eq!(ui.splash_start, Some(10_100 - SPLASH_FADE_OUT_AT_MS));
}

#[test]
fn global_keys_raise_their_actions() {
    let app = app();
    let mut ui = ui();
    assert!(matches!(press(&mut ui, &app, KeyCode::Char('q')).as_slice(), [AppAction::Quit]));
    assert!(matches!(press(&mut ui, &app, KeyCode::Char(' ')).as_slice(), [AppAction::PauseResume]));
    assert!(matches!(press(&mut ui, &app, KeyCode::Char('=')).as_slice(), [AppAction::VolumeUp]));
    assert!(matches!(press(&mut ui, &app, KeyCode::Char('4')).as_slice(), [AppAction::SwitchTab(Tab::Albums)]));
    assert!(matches!(press(&mut ui, &app, KeyCode::Tab).as_slice(), [AppAction::FocusNext]));
    let shifted = ui.handle_key_event(KeyEvent { code: KeyCode::Char('N'), modifiers: MOD_SHIFT }, &app).0;
    assert!(matches!(shifted.as_slice(), [AppAction::PrevTrack]));
    let ctrl_c = ui.handle_key_event(KeyEvent { code: KeyCode::Char('c'), modifiers: MOD_CONTROL }, &app).0;
    assert!(matches!(ctrl_c.as_slice(), [AppAction::Quit]));
    press(&mut ui, &app, KeyCode::Char('p'));
    assert_eq!(ui.info_view, InfoView::AlbumArt);
}

#[test]
fn the_chord_and_direct_shortcuts_open_modals() {
    let app = app();
    let mut ui = ui();
    ui.handle_key_event(KeyEvent { code: KeyCode::Char('e'), modifiers: MOD_CONTROL }, &app);
    assert!(ui.chord_pending);
    press(&mut ui, &app, KeyCode::Char('h'));
    assert!(!ui.chord_pending && ui.show_help_modal);
    press(&mut ui, &app, KeyCode::Esc);
    assert!(!ui.show_help_modal);
    ui.handle_key_event(KeyEvent { code: KeyCode::Char('s'), modifiers: MOD_CONTROL }, &app);
    assert!(ui.show_search_modal);
    press(&mut ui, &app, KeyCode::Esc);
    assert!(!ui.show_search_modal);
    ui.handle_key_event(KeyEvent { code: KeyCode::Char('h'), modifiers: MOD_CONTROL }, &app);
    assert!(ui.show_help_modal);
    press(&mut ui, &app, KeyCode::Esc);
    ui.handle_key_event(KeyEvent { code: KeyCode::Char('a'), modifiers: MOD_CONTROL }, &app);
    assert!(ui.show_about_modal);
    press(&mut ui, &app, KeyCode::Esc);
    assert!(!ui.show_about_modal);
    let sync = ui.handle_key_event(KeyEvent { code: KeyCode::Char('l'), modifiers: MOD_CONTROL }, &app).0;
    assert!(matches!(sync.as_slice(), [AppAction::LibrarySync]));
    ui.handle_key_event(KeyEvent { code: KeyCode::Char('e'), modifiers: MOD_CONTROL }, &app);
    let chord_sync = press(&mut ui, &app, KeyCode::Char('l'));
    assert!(matches!(chord_sync.as_slice(), [AppAction::LibrarySync]));
    assert!(!ui.chord_pending);
}

#[test]
fn the_about_modal_offers_its_links() {
    let app = app();
    let mut ui = ui();
    ui.show_about_modal = true;
    let (_, link) = ui.handle_key_event(key(KeyCode::Char('g')), &app);
    assert_eq!(link, Some(Link::Repository));
    assert_eq!(Link::Repository.url(), "https://github.com/sqzer-x/ommp");
    let (_, link) = ui.handle_key_event(key(KeyCode::Char('s')), &app);
    assert_eq!(link.map(|l| l.url()), Some("https://github.com/sponsors/sqzer-x"));
    ui.handle_key_event(key(KeyCode::Char('q')), &app);
    assert!(!ui.show_about_modal);
}

#[test]
fn typing_in_the_search_modal_searches_and_enter_queues() {
    let app = app();
    let mut ui = ui();
    ui.show_search_modal = true;
    for c in "AMY".chars() {
        press(&mut ui, &app, KeyCode::Char(c));
    }
    assert_eq!(ui.search_modal_input, "AMY");
    assert_eq!(ui.search_modal_results, vec![0, 1]);
    press(&mut ui, &app, KeyCode::Down);
    assert_eq!(ui.search_modal_selected, 1);
    press(&mut ui, &app, KeyCode::Down);
    assert_eq!(ui.search_modal_selected, 1);
    let actions = press(&mut ui, &app, KeyCode::Enter);
    assert!(matches!(actions.as_slice(), [AppAction::AddToQueue(v)] if v == &vec![1]));
    assert!(!ui.show_search_modal);
    assert!(ui.search_modal_input.is_empty());
}

#[test]
fn backspace_in_search_searches_again() {
    let app = app();
    let mut ui = ui();
    ui.show_search_modal = true;
    for c in "twox".chars() {
        press(&mut ui, &app, KeyCode::Char(c));
    }
    assert!(ui.search_modal_results.is_empty());
    press(&mut ui, &app, KeyCode::Backspace);
    assert_eq!(ui.search_modal_results, vec![1]);
}

#[test]
fn naming_a_playlist_trims_the_name() {
    let mut app = app();
    app.handle_action(AppAction::AddToQueue(vec![0, 1]));
    let mut ui = ui();
    press(&mut ui, &app, KeyCode::Char('b'));
    assert!(ui.show_playlist_modal);
    press(&mut ui, &app, KeyCode::Char('a'));
    assert_eq!(ui.playlist_modal_mode, PlaylistModalMode::Create);
    for c in "  Road ".chars() {
        press(&mut ui, &app, KeyCode::Char(c));
    }
    let actions = press(&mut ui, &app, KeyCode::Enter);
    assert!(matches!(actions.as_slice(), [AppAction::CreatePlaylist(n)] if n == "Road"));
    assert_eq!(ui.playlist_modal_mode, PlaylistModalMode::List);
    let actions = press(&mut ui, &app, KeyCode::Enter);
    assert!(matches!(actions.as_slice(), [AppAction::AddToPlaylist { playlist_idx: 0, track_idx: 0 }]));
}

#[test]
fn resize_mode_moves_borders_and_split() {
    let app = app();
    let mut ui = ui();
    ui.resize_mode = true;
    press(&mut ui, &app, KeyCode::Right);
    assert_eq!(ui.pane_widths, [22, 58, 20]);
    press(&mut ui, &app, KeyCode::Up);
    assert_eq!(ui.right_split, 47);
    for _ in 0..20 {
        press(&mut ui, &app, KeyCode::Down);
    }
    assert_eq!(ui.right_split, 90);
    let actions = press(&mut ui, &app, KeyCode::Char('q'));
    assert!(matches!(actions.as_slice(), [AppAction::Quit]));
    assert!(!ui.resize_mode);
}

#[test]
fn enter_on_a_list_tab_queues_the_selected_row_and_moves_focus() {
    let mut app = app();
    app.tab = Tab::Artists;
    let mut ui = ui();
    press(&mut ui, &app, KeyCode::Char('j'));
    let actions = press(&mut ui, &app, KeyCode::Enter);
    match actions.as_slice() {
        [AppAction::FocusPane(FocusedPane::Playlist), AppAction::AddToQueue(v)] => assert_eq!(v, &vec![2]),
        other => panic!("unexpected {:?}", other),
    }
}

#[test]
fn enter_on_the_overview_queues_everything_or_a_directory() {
    let app = app();
    let mut ui = ui();
    // Row 0 is the header, row 1 "All Tracks".
    press(&mut ui, &app, KeyCode::Down);
    let actions = press(&mut ui, &app, KeyCode::Enter);
    assert!(matches!(actions.as_slice(), [AppAction::FocusPane(_), AppAction::AddToQueue(v)] if v == &vec![0, 1, 2]));
    // Bookmarks, then the separator is stepped over to the directory header.
    press(&mut ui, &app, KeyCode::Down);
    press(&mut ui, &app, KeyCode::Down);
    assert_eq!(ui.library_pane.selected, 4);
    press(&mut ui, &app, KeyCode::Down);
    let actions = press(&mut ui, &app, KeyCode::Enter);
    assert!(matches!(actions.as_slice(), [_, AppAction::AddToQueue(v)] if v == &vec![0, 1]));
}

#[test]
fn the_directory_browser_walks_into_and_out_of_folders() {
    let mut app = app();
    app.tab = Tab::Directories;
    let mut ui = ui();
    ui.refresh_dir_browser(&app);
    assert_eq!(ui.dir_browser_pane.entries.len(), 2);
    press(&mut ui, &app, KeyCode::Enter);
    assert_eq!(ui.dir_browser_pane.current_dir, "/m/A");
    assert_eq!(ui.dir_browser_pane.entries.len(), 3);
    press(&mut ui, &app, KeyCode::Char('j'));
    let actions = press(&mut ui, &app, KeyCode::Enter);
    assert!(matches!(actions.as_slice(), [_, AppAction::AddToQueue(v)] if v == &vec![0]));
    press(&mut ui, &app, KeyCode::Backspace);
    assert_eq!(ui.dir_browser_pane.current_dir, "/m");
}

#[test]
fn the_queue_pane_plays_removes_and_clears() {
    let mut app = app();
    app.handle_action(AppAction::AddToQueue(vec![0, 1]));
    app.focus = FocusedPane::Playlist;
    let mut ui = ui();
    update_queue_selection(&mut app, key(KeyCode::Char('j')));
    assert_eq!(app.queue.selected_index, 1);
    update_queue_selection(&mut app, key(KeyCode::Char('j')));
    assert_eq!(app.queue.selected_index, 1);
    assert!(matches!(press(&mut ui, &app, KeyCode::Enter).as_slice(), [AppAction::PlayQueueIndex(1)]));
    assert!(matches!(press(&mut ui, &app, KeyCode::Delete).as_slice(), [AppAction::RemoveFromQueue(1)]));
    assert!(matches!(press(&mut ui, &app, KeyCode::Char('c')).as_slice(), [AppAction::ClearQueue]));
    assert!(press(&mut ui, &app, KeyCode::Char('j')).is_empty());
}

#[test]
fn a_click_on_another_pane_focuses_it_and_selects_the_row() {
    let mut app = app();
    app.handle_action(AppAction::AddToQueue(vec![0, 1, 2]));
    let mut ui = ui();
    let actions = ui.handle_mouse_event(mouse(MouseKind::Down, 30, 9), &app, area(), 50_000);
    assert!(matches!(actions.as_slice(), [AppAction::FocusPane(FocusedPane::Playlist), AppAction::SetQueueSelection(1)]));
    let actions = ui.handle_mouse_event(mouse(MouseKind::Down, 30, 9), &app, area(), 50_100);
    assert!(matches!(actions.as_slice(), [AppAction::FocusPane(FocusedPane::Playlist), AppAction::PlayQueueIndex(1)]));
    let actions = ui.handle_mouse_event(mouse(MouseKind::Down, 30, 9), &app, area(), 50_200);
    assert!(matches!(actions.as_slice(), [_, AppAction::SetQueueSelection(1)]), "a third click is a single one");
}

#[test]
fn clicks_far_apart_in_time_or_place_are_not_double() {
    let mut app = app();
    app.handle_action(AppAction::AddToQueue(vec![0, 1, 2]));
    app.focus = FocusedPane::Playlist;
    let mut ui = ui();
    ui.handle_mouse_event(mouse(MouseKind::Down, 30, 9), &app, area(), 50_000);
    let late = ui.handle_mouse_event(mouse(MouseKind::Down, 30, 9), &app, area(), 50_400);
    assert!(matches!(late.as_slice(), [AppAction::SetQueueSelection(1)]));
    let moved = ui.handle_mouse_event(mouse(MouseKind::Down, 31, 9), &app, area(), 50_450);
    assert!(matches!(moved.as_slice(), [AppAction::SetQueueSelection(1)]));
}

#[test]
fn clicking_a_tab_title_or_the_gauge_acts() {
    let mut app = app();
    app.handle_action(AppAction::AddToQueue(vec![0]));
    app.handle_action(AppAction::PlayQueueIndex(0));
    let mut ui = ui();
    let actions = ui.handle_mouse_event(mouse(MouseKind::Down, 16, 5), &app, area(), 1);
    assert!(matches!(actions.as_slice(), [AppAction::SwitchTab(Tab::Queue)]));
    // Gauge from column 4, 82 wide: column 45 is 41/82 of the way.
    let actions = ui.handle_mouse_event(mouse(MouseKind::Down, 45, 38), &app, area(), 5_000);
    assert!(matches!(actions.as_slice(), [AppAction::Seek(50_000)]));
}

#[test]
fn dragging_a_border_resizes_the_panes() {
    let app = app();
    let mut ui = ui();
    let actions = ui.handle_mouse_event(mouse(MouseKind::Down, 20, 10), &app, area(), 1);
    assert!(actions.len() <= 1);
    assert_eq!(ui.dragging_border, Some(0));
    ui.handle_mouse_event(mouse(MouseKind::Drag, 35, 10), &app, area(), 2);
    assert_eq!(ui.pane_widths, [35, 45, 20]);
    ui.handle_mouse_event(mouse(MouseKind::Drag, 99, 10), &app, area(), 3);
    assert_eq!(ui.pane_widths, [70, 10, 20]);
    ui.handle_mouse_event(mouse(MouseKind::Up, 99, 10), &app, area(), 4);
    assert_eq!(ui.dragging_border, None);
}

#[test]
fn the_wheel_scrolls_the_pane_under_the_pointer() {
    let mut app = app();
    let q: Vec<usize> = (0..3).cycle().take(40).collect();
    app.handle_action(AppAction::AddToQueue(q));
    let mut ui = ui();
    let actions = ui.handle_mouse_event(mouse(MouseKind::ScrollDown, 30, 10), &app, area(), 1);
    assert!(matches!(actions.as_slice(), [AppAction::SetQueueSelection(3)]));
    assert_eq!(ui.queue_pane.scroll_offset, 3);
    ui.handle_mouse_event(mouse(MouseKind::ScrollDown, 90, 30), &app, area(), 2);
    assert_eq!(ui.lyrics_pane.scroll_offset, 3);
}

#[test]
fn the_pointer_highlights_only_rows_that_exist() {
    let mut app = app();
    app.handle_action(AppAction::AddToQueue(vec![0, 1]));
    let mut ui = ui();
    ui.handle_mouse_event(mouse(MouseKind::Moved, 30, 9), &app, area(), 1);
    assert_eq!(ui.queue_pane.hover_row, Some(1));
    ui.handle_mouse_event(mouse(MouseKind::Moved, 30, 20), &app, area(), 2);
    assert_eq!(ui.queue_pane.hover_row, None);
    ui.handle_mouse_event(mouse(MouseKind::Moved, 21, 5), &app, area(), 3);
    assert_eq!(ui.hovered_tab, Some(1));
    let areas = LayoutAreas::compute(area(), ui.pane_widths, ui.right_split);
    assert_eq!(areas.playlist.x, 20);
}

#[test]
fn a_new_library_resets_the_browsers_and_reruns_search() {
    let mut app = app();
    let mut ui = ui();
    ui.show_search_modal = true;
    for c in "bo".chars() {
        press(&mut ui, &app, KeyCode::Char(c));
    }
    assert_eq!(ui.search_modal_results, vec![2]);
    let mut lib = ommp::library::Library::new();
    lib.tracks.push(track("/m/B/3.mp3", "Three", "Bo", "Red"));
    ui.on_library_ready(&mut app, lib);
    assert_eq!(ui.search_modal_results, vec![0]);
    assert_eq!(ui.library_pane.selected, 0);
}

#[test]
fn list_pane_mut_reaches_the_pane_of_the_tab() {
    let mut ui = ui();
    ui.list_pane_mut(Tab::Genre).selected = 3;
    assert_eq!(ui.list_panes[2].selected, 3);
    assert_eq!(ui.list_panes[0].selected, 0);
    ui.list_pane_mut(Tab::Queue).selected = 1;
    assert_eq!(ui.list_panes[4].selected, 1);
}
