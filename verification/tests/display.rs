use ommp::geometry::Rect;
use ommp::input::{KeyCode, KeyEvent, MouseEvent, MouseKind, MOD_NONE};
use ommp::library::Track;
use ommp::library_pane::LibraryPane;
use ommp::list_pane::{activate, row_count, rows_for, ListPane, ListRow};
use ommp::panes::{keep_in_view, DirBrowserPane, GenrePane, LyricsPane, QueuePane, SearchPane};
use ommp::player::{counts_as_change, Debouncer, FsChange, PlaybackClock, TickReport};
use ommp::session::{App, AppAction};
use ommp::state::{PlayState, Tab};
use ommp::text::{counted_text, fit_to_width, format_clock};
use ommp::widgets::{
    about_top_pad, art_placeholder, art_rect, backdrop_note, clock_glyphs, clock_offset, format_color,
    is_cover_extension, is_image_by_magic, needs_reload, playlist_modal_prompt, playlist_modal_title,
    playlist_ticks, progress_time, queue_columns, queue_row, search_columns, search_count, search_placeholder,
    splash_opacity, status_bar, track_details, FormatColor,
};
use ommp::ui::PlaylistModalMode;
use unicode_width::UnicodeWidthStr;

fn track(path: &str, title: &str, artist: &str, album: &str) -> Track {
    Track {
        path: path.to_string(),
        title: title.to_string(),
        artist: artist.to_string(),
        album: album.to_string(),
        album_artist: String::new(),
        genre: "Pop".to_string(),
        track_number: Some(7),
        duration_ms: 125_000,
        bitrate: Some(320),
        lyrics: None,
    }
}

fn app() -> App {
    let mut app = App::new("/m".to_string());
    app.library.tracks.push(track("/m/a.flac", "Alpha", "Amy", "Blue"));
    app.library.tracks.push(track("/m/b.m4a", "Beta", "", ""));
    app
}

fn key(code: KeyCode) -> KeyEvent {
    KeyEvent { code, modifiers: MOD_NONE }
}

#[test]
fn fit_pads_and_truncates_by_column_not_by_character() {
    assert_eq!(fit_to_width("abc", 5), "abc  ");
    assert_eq!(UnicodeWidthStr::width(fit_to_width("abcdefgh", 5).as_str()), 5);
    assert_eq!(fit_to_width("日本語テスト", 5), "日本\u{2026}");
    assert_eq!(UnicodeWidthStr::width(fit_to_width("日本語テスト", 5).as_str()), 5);
    assert_eq!(fit_to_width("肺", 2), "肺");
}

#[test]
fn fitting_cuts_before_the_ellipsis_column() {
    assert_eq!(fit_to_width("abcdefgh", 5), "abcd\u{2026}");
    assert_eq!(fit_to_width("ab", 0), "");
    assert_eq!(UnicodeWidthStr::width(fit_to_width("ab", 1).as_str()), 1);
    assert_eq!(fit_to_width("日本", 3), "日\u{2026}");
}

#[test]
fn clock_text_pads_seconds() {
    assert_eq!(format_clock(0), "0:00");
    assert_eq!(format_clock(65), "1:05");
    assert_eq!(format_clock(3600), "60:00");
    assert_eq!(counted_text(12), "(12)");
}

#[test]
fn the_status_bar_describes_what_is_playing() {
    let mut app = app();
    let s = status_bar(&app);
    assert_eq!(s.title, "No track playing");
    assert_eq!(s.subtitle, "");
    assert_eq!(s.volume_steps, 6);
    assert!(!s.bookmarked);
    app.handle_action(AppAction::AddToQueue(vec![1, 0]));
    app.handle_action(AppAction::PlayQueueIndex(0));
    app.handle_action(AppAction::UpdatePosition { position_ms: 65_400, duration_ms: 0 });
    app.handle_action(AppAction::AddToPlaylist { playlist_idx: 0, track_idx: 1 });
    let s = status_bar(&app);
    assert_eq!(s.state, PlayState::Playing);
    assert_eq!(s.title, "Beta");
    assert_eq!(s.subtitle, "Unknown Artist - Unknown Album");
    assert_eq!(s.time, " 1:05/2:05 (320kbps)");
    assert!(s.bookmarked);
    assert_eq!(progress_time(&app), " 1:05 / 2:05");
    app.handle_action(AppAction::SetVolume(100));
    assert_eq!(status_bar(&app).volume_steps, 8);
}

#[test]
fn queue_rows_show_star_extension_and_duration() {
    let mut app = app();
    app.handle_action(AppAction::AddToQueue(vec![0, 1]));
    app.handle_action(AppAction::AddToPlaylist { playlist_idx: 0, track_idx: 0 });
    let r = queue_row(&app, 0);
    assert!(r.current);
    assert_eq!(r.title, "Alpha \u{F005}");
    assert_eq!(r.ext, "FLAC");
    assert_eq!(r.color, FormatColor::Green);
    assert_eq!(r.duration, "2:05");
    let r = queue_row(&app, 1);
    assert!(!r.current);
    assert_eq!(r.title, "Beta");
    assert_eq!(r.artist, "Unknown Artist");
    assert_eq!(r.ext, "M4A");
    assert_eq!(r.color, FormatColor::Cyan);
    assert_eq!(format_color("WAVE"), FormatColor::Blue);
    assert_eq!(format_color("OPUS"), FormatColor::White);
}

#[test]
fn queue_and_search_columns_split_the_width() {
    assert_eq!(queue_columns(114), (55, 45));
    assert_eq!(queue_columns(10), (4, 4));
    assert_eq!(search_columns(100), (55, 42));
    assert_eq!(search_columns(4), (4, 0));
}

#[test]
fn modal_texts_follow_their_state() {
    assert_eq!(search_placeholder(""), "Type to search...");
    assert_eq!(search_placeholder("x"), "No results found");
    assert_eq!(search_count(3, 120), " 3/120 ");
    assert_eq!(playlist_modal_title(PlaylistModalMode::Rename), " Rename Playlist ");
    assert_eq!(playlist_modal_prompt(PlaylistModalMode::Create), "Name:");
    assert_eq!(playlist_modal_prompt(PlaylistModalMode::Rename), "New name:");
    let mut app = app();
    app.handle_action(AppAction::CreatePlaylist("Two".to_string()));
    app.handle_action(AppAction::AddToQueue(vec![1]));
    app.handle_action(AppAction::AddToPlaylist { playlist_idx: 1, track_idx: 1 });
    assert_eq!(playlist_ticks(&app), vec![false, true]);
}

#[test]
fn track_details_fill_in_what_tags_leave_out() {
    let t = track("/m/x.ogg", "X", "", "");
    let d = track_details(&t);
    let values: Vec<&str> = d.iter().map(|(_, v)| v.as_str()).collect();
    assert_eq!(
        values,
        vec!["X", "Unknown Artist", "Unknown Album", "N/A", "Pop", "7", "2:05", "320 kbps", "OGG"]
    );
    let mut t = track("/m/noext", "Y", "A", "B");
    t.bitrate = None;
    t.track_number = None;
    let d = track_details(&t);
    assert_eq!(d[5].1, "N/A");
    assert_eq!(d[7].1, "N/A");
    assert_eq!(d[8].1, "UNKNOWN");
}

#[test]
fn the_info_pane_places_the_clock_and_the_cover() {
    assert_eq!(clock_glyphs(9, 45), [0, 9, 10, 4, 5]);
    assert_eq!(clock_offset(30, 11), (3, 3));
    assert_eq!(clock_offset(20, 4), (0, 0));
    let a = Rect { x: 10, y: 5, width: 40, height: 10 };
    assert_eq!(art_rect(a, (8, 16)), Rect { x: 20, y: 5, width: 20, height: 10 });
    assert_eq!(art_placeholder(a), Rect { x: 10, y: 8, width: 40, height: 7 });
    assert!(needs_reload(&Some("/a".to_string()), &Some("/b".to_string())));
    assert!(!needs_reload(&Some("/a".to_string()), &Some("/a".to_string())));
    assert!(!needs_reload(&None, &None));
    assert!(needs_reload(&None, &Some("/a".to_string())));
}

#[test]
fn covers_are_found_by_extension_or_magic_bytes() {
    assert!(is_cover_extension("JPG"));
    assert!(is_cover_extension("png"));
    assert!(!is_cover_extension("gif"));
    assert!(is_image_by_magic(&[0xFF, 0xD8, 0xFF, 0, 0, 0, 0, 0]));
    assert!(is_image_by_magic(&[0x89, 0x50, 0x4E, 0x47, 0x0D, 0x0A, 0x1A, 0x0A]));
    assert!(!is_image_by_magic(&[0x89, 0x50, 0x4E, 0x47, 0x0D, 0x0A, 0x1A, 0x0B]));
}

#[test]
fn the_splash_fades_in_holds_and_fades_out() {
    assert_eq!(splash_opacity(0), 0);
    assert_eq!(splash_opacity(250), 500);
    assert_eq!(splash_opacity(1000), 1000);
    assert_eq!(splash_opacity(1750), 500);
    assert_eq!(splash_opacity(2500), 0);
    assert_eq!(backdrop_note(0, 0), Some((0, 1)));
    assert_eq!(backdrop_note(1, 0), None);
    assert_eq!(about_top_pad(31), 5);
    assert_eq!(about_top_pad(10), 0);
}

#[test]
fn list_panes_move_scroll_and_stay_on_screen() {
    let mut p = ListPane::new();
    assert!(!p.handle_key(key(KeyCode::Enter), 0));
    p.handle_key(key(KeyCode::Char('G')), 10);
    assert_eq!(p.selected, 9);
    p.fit_view(10, 4);
    assert_eq!(p.scroll_offset, 6);
    p.scroll(true, 10, 6);
    assert_eq!((p.scroll_offset, p.selected), (3, 6));
    p.scroll(false, 10, 6);
    p.scroll(false, 10, 6);
    assert_eq!((p.scroll_offset, p.selected), (6, 9));
    let area = Rect { x: 0, y: 0, width: 20, height: 6 };
    p.handle_mouse(MouseEvent { kind: MouseKind::Down, column: 3, row: 2 }, area, 10);
    assert_eq!(p.selected, 7);
    p.clamp_to(3);
    assert_eq!((p.selected, p.scroll_offset), (2, 2));
    assert!(p.handle_key(key(KeyCode::Enter), 3));
    assert_eq!(keep_in_view(9, 0, 10, 4), 6);
    assert_eq!(keep_in_view(1, 5, 10, 4), 1);
}

#[test]
fn list_rows_and_activation_follow_the_tab() {
    let mut app = app();
    let rows = rows_for(&app, Tab::Format);
    assert_eq!(rows.len(), 2);
    assert_eq!(rows[0].text, "flac");
    assert_eq!(rows[0].detail.as_deref(), Some("(1)"));
    assert_eq!(row_count(&app, Tab::Artists), 2);
    assert!(rows_for(&app, Tab::Queue).is_empty());
    assert!(matches!(activate(&app, Tab::Artists, 1), Some(AppAction::AddToQueue(v)) if v == vec![1]));
    assert!(activate(&app, Tab::Artists, 2).is_none());
    assert!(activate(&app, Tab::Playlists, 0).is_none());
    app.handle_action(AppAction::AddToPlaylist { playlist_idx: 0, track_idx: 0 });
    let rows = rows_for(&app, Tab::Playlists);
    assert!(rows[0].star);
    assert_eq!(rows[0].detail.as_deref(), Some("(1)"));
    assert_eq!(rows[0].label_width(20), 12);
    assert_eq!(ListRow::plain("x".to_string()).label_width(20), 18);
}

#[test]
fn the_other_panes_keep_their_own_positions() {
    let app = app();
    let mut g = GenrePane::new();
    assert!(matches!(g.handle_key(key(KeyCode::Enter), &app), Some(AppAction::AddToQueue(v)) if v == vec![0, 1]));
    g.handle_scroll(false, &app);
    assert_eq!(g.selected, 0);
    let mut l = LyricsPane::new();
    l.handle_key(key(KeyCode::Char('j')), &app);
    l.handle_scroll(false, &app);
    assert_eq!(l.scroll_offset, 4);
    l.handle_key(key(KeyCode::Home), &app);
    assert_eq!(l.scroll_offset, 0);
    let mut q = QueuePane::new();
    assert!(q.handle_scroll(false, &app).is_none());
    let mut s = SearchPane::new();
    assert!(s.handle_scroll(true, &app).is_none());
    let d = DirBrowserPane::new("/m".to_string());
    assert!(d.entries.is_empty());
    let lp = LibraryPane::new();
    assert_eq!(lp.row_count(&app), 9);
    let _ = LibraryPane::build_entries(&app);
}

#[test]
fn the_playback_clock_pauses_resumes_and_seeks() {
    let mut c = PlaybackClock::start(1_000, 10_000);
    assert_eq!(c.tick(3_000, false), TickReport::Position { position_ms: 2_000, duration_ms: 10_000 });
    assert!(c.pause(4_000));
    assert!(!c.pause(4_500));
    assert_eq!(c.tick(9_000, true), TickReport::Position { position_ms: 3_000, duration_ms: 10_000 });
    assert!(c.resume(9_000));
    assert_eq!(c.tick(10_000, false), TickReport::Position { position_ms: 4_000, duration_ms: 10_000 });
    c.seeked(9_500, 10_000);
    assert_eq!(c.tick(20_000, false), TickReport::Position { position_ms: 10_000, duration_ms: 10_000 });
    assert_eq!(c.tick(20_000, true), TickReport::Finished);
}

#[test]
fn the_watcher_waits_for_quiet_before_rescanning() {
    let mut d = Debouncer::new();
    assert!(!d.due(1_000_000));
    assert!(counts_as_change(FsChange::Modify));
    assert!(!counts_as_change(FsChange::Access));
    d.on_change(1_000);
    assert!(!d.due(2_999));
    assert!(d.due(3_000));
    assert!(!d.settle(3_000, true));
    assert!(!d.due(4_000));
    assert!(d.due(5_000));
    assert!(d.settle(5_000, false));
    assert!(!d.due(9_000));
}
