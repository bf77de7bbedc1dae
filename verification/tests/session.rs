use ommp::events::{action_allowed, on_audio_event, restore_session, session_snapshot, AudioEvent, SavedSettings};
use ommp::library::{Library, Track};
use ommp::persist::{accepts_cache_version, is_fresh, restore_playlists, snapshot_playlists, CacheEntry, SavedPlaylist, CACHE_VERSION};
use ommp::session::{App, AppAction, Effect, PlayerCommand};
use ommp::state::{FocusedPane, InfoView, PlayState, Playlist, RepeatMode, SyncState, Tab};
use ommp::ui::Ui;

fn track(path: &str, title: &str, duration_ms: u64) -> Track {
    Track {
        path: path.to_string(),
        title: title.to_string(),
        artist: "Artist".to_string(),
        album: "Album".to_string(),
        album_artist: String::new(),
        genre: String::new(),
        track_number: None,
        duration_ms,
        bitrate: None,
        lyrics: None,
    }
}

fn app_with(n: usize) -> App {
    let mut app = App::new("/m".to_string());
    for i in 0..n {
        app.library.tracks.push(track(&format!("/m/{i}.flac"), &format!("T{i}"), 1000 * (i as u64 + 1)));
    }
    app
}

fn played(eff: &[Effect]) -> Option<String> {
    match eff {
        [Effect::Player(PlayerCommand::Play(p))] => Some(p.clone()),
        _ => None,
    }
}

#[test]
fn a_fresh_session_has_one_empty_bookmarks_playlist() {
    let app = App::new("/m".to_string());
    assert_eq!(app.tab, Tab::Queue);
    assert_eq!(app.focus, FocusedPane::Library);
    assert_eq!(app.playback.volume, 80);
    assert_eq!(app.playlists.len(), 1);
    assert_eq!(app.playlists[0].name, "Bookmarks");
    assert!(app.current_track().is_none());
}

#[test]
fn queueing_replaces_the_queue_and_points_at_its_first_entry() {
    let mut app = app_with(3);
    let eff = app.handle_action(AppAction::AddToQueue(vec![2, 0]));
    assert!(eff.is_empty());
    assert_eq!(app.queue.tracks, vec![2, 0]);
    assert_eq!(app.queue.current_index, Some(0));
    app.handle_action(AppAction::ClearQueue);
    assert!(app.queue.tracks.is_empty());
    assert_eq!(app.queue.current_index, None);
}

#[test]
fn queueing_an_album_leaves_the_playing_track_playing() {
    let mut app = app_with(3);
    app.handle_action(AppAction::AddToQueue(vec![0, 1, 2]));
    app.handle_action(AppAction::PlayQueueIndex(1));
    let before = (app.playback.state, app.playback.position_ms, app.playback.volume);
    assert_eq!(before.0, PlayState::Playing);
    let eff = app.handle_action(AppAction::AddToQueue(vec![2, 0]));
    assert!(eff.is_empty());
    assert_eq!((app.playback.state, app.playback.position_ms, app.playback.volume), before);
    assert_eq!(app.queue.tracks, vec![1, 2, 0]);
    assert_eq!(app.queue.current_index, Some(0));
}

#[test]
fn a_rescan_keeps_absent_playlist_entries_as_missing() {
    let mut app = app_with(3);
    app.handle_action(AppAction::AddToPlaylist { playlist_idx: 0, track_idx: 0 });
    app.handle_action(AppAction::AddToPlaylist { playlist_idx: 0, track_idx: 2 });
    let mut unmounted = Library::new();
    unmounted.tracks.push(track("/m/0.flac", "T0", 1000));
    unmounted.tracks.push(track("/m/1.flac", "T1", 2000));
    app.replace_library(unmounted);
    assert_eq!(app.playlists[0].tracks, vec![0]);
    assert_eq!(app.playlists[0].missing, vec!["/m/2.flac".to_string()]);
    assert_eq!(app.sync_state, SyncState::Idle);
    let saved = snapshot_playlists(&app.playlists, &app.library);
    assert_eq!(saved[0].tracks, vec!["/m/0.flac".to_string(), "/m/2.flac".to_string()]);
}

#[test]
fn next_and_previous_walk_the_queue() {
    let mut app = app_with(3);
    app.handle_action(AppAction::AddToQueue(vec![0, 1, 2]));
    let eff = app.handle_action(AppAction::NextTrack);
    assert_eq!(played(&eff), Some("/m/1.flac".to_string()));
    assert_eq!(app.queue.current_index, Some(1));
    assert_eq!(app.playback.state, PlayState::Playing);
    assert_eq!(app.playback.duration_ms, 2000);
    let eff = app.handle_action(AppAction::PrevTrack);
    assert_eq!(played(&eff), Some("/m/0.flac".to_string()));
    assert_eq!(app.queue.current_index, Some(0));
}

#[test]
fn the_end_of_the_queue_stops_unless_repeating_all() {
    let mut app = app_with(2);
    app.handle_action(AppAction::AddToQueue(vec![0, 1]));
    app.handle_action(AppAction::PlayQueueIndex(1));
    let eff = app.handle_action(AppAction::TrackFinished);
    assert!(eff.is_empty());
    assert_eq!(app.playback.state, PlayState::Stopped);
    app.handle_action(AppAction::CycleRepeat);
    assert_eq!(app.playback.repeat, RepeatMode::All);
    let eff = app.handle_action(AppAction::TrackFinished);
    assert_eq!(played(&eff), Some("/m/0.flac".to_string()));
    assert_eq!(app.queue.current_index, Some(0));
}

#[test]
fn repeat_one_replays_the_same_entry() {
    let mut app = app_with(2);
    app.handle_action(AppAction::AddToQueue(vec![0, 1]));
    app.playback.repeat = RepeatMode::One;
    let eff = app.handle_action(AppAction::NextTrack);
    assert_eq!(played(&eff), Some("/m/0.flac".to_string()));
    assert_eq!(app.queue.current_index, Some(0));
}

#[test]
fn shuffle_always_lands_inside_the_queue() {
    let mut app = app_with(3);
    app.handle_action(AppAction::AddToQueue(vec![2, 1]));
    app.handle_action(AppAction::ToggleShuffle);
    for _ in 0..50 {
        let eff = app.handle_action(AppAction::NextTrack);
        let c = app.queue.current_index.unwrap();
        assert!(c < 2);
        assert_eq!(played(&eff), Some(format!("/m/{}.flac", app.queue.tracks[c])));
    }
}

#[test]
fn previous_restarts_a_track_after_three_seconds() {
    let mut app = app_with(2);
    app.handle_action(AppAction::AddToQueue(vec![0, 1]));
    app.handle_action(AppAction::PlayQueueIndex(1));
    app.handle_action(AppAction::UpdatePosition { position_ms: 4000, duration_ms: 2000 });
    let eff = app.handle_action(AppAction::PrevTrack);
    assert_eq!(app.queue.current_index, Some(1));
    assert_eq!(app.playback.position_ms, 0);
    assert_eq!(eff.len(), 1);
}

#[test]
fn volume_steps_by_five_and_stays_in_range() {
    let mut app = app_with(0);
    let eff = app.handle_action(AppAction::VolumeUp);
    assert_eq!(app.playback.volume, 85);
    assert!(matches!(eff.as_slice(), [Effect::Player(PlayerCommand::SetVolume(85))]));
    app.handle_action(AppAction::SetVolume(250));
    assert_eq!(app.playback.volume, 100);
    app.handle_action(AppAction::VolumeUp);
    assert_eq!(app.playback.volume, 100);
    app.handle_action(AppAction::SetVolume(3));
    app.handle_action(AppAction::VolumeDown);
    assert_eq!(app.playback.volume, 0);
}

#[test]
fn seeking_stays_inside_the_track() {
    let mut app = app_with(1);
    app.handle_action(AppAction::AddToQueue(vec![0]));
    app.handle_action(AppAction::PlayQueueIndex(0));
    app.handle_action(AppAction::UpdatePosition { position_ms: 0, duration_ms: 10_000 });
    let eff = app.handle_action(AppAction::SeekForward);
    assert_eq!(app.playback.position_ms, 5000);
    assert!(matches!(eff.as_slice(), [Effect::Player(PlayerCommand::Seek(5000))]));
    app.handle_action(AppAction::Seek(60_000));
    assert_eq!(app.playback.position_ms, 10_000);
    app.handle_action(AppAction::Seek(1000));
    app.handle_action(AppAction::SeekBackward);
    assert_eq!(app.playback.position_ms, 0);
}

#[test]
fn removing_an_earlier_entry_keeps_the_current_track() {
    let mut app = app_with(3);
    app.handle_action(AppAction::AddToQueue(vec![0, 1, 2]));
    app.handle_action(AppAction::PlayQueueIndex(2));
    app.handle_action(AppAction::RemoveFromQueue(0));
    assert_eq!(app.queue.tracks, vec![1, 2]);
    assert_eq!(app.queue.current_index, Some(1));
    assert_eq!(app.current_track().unwrap().path, "/m/2.flac");
    app.handle_action(AppAction::RemoveFromQueue(1));
    assert_eq!(app.queue.current_index, Some(0));
}

#[test]
fn playlists_are_created_filled_renamed_and_deleted() {
    let mut app = app_with(2);
    app.handle_action(AppAction::CreatePlaylist("Road".to_string()));
    assert_eq!(app.playlists.len(), 2);
    app.handle_action(AppAction::AddToPlaylist { playlist_idx: 1, track_idx: 1 });
    app.handle_action(AppAction::AddToPlaylist { playlist_idx: 1, track_idx: 1 });
    assert_eq!(app.playlists[1].tracks, vec![1]);
    app.handle_action(AppAction::RenamePlaylist { idx: 1, name: "Trip".to_string() });
    assert_eq!(app.playlists[1].name, "Trip");
    app.handle_action(AppAction::RemoveFromPlaylist { playlist_idx: 1, track_idx: 1 });
    assert!(app.playlists[1].tracks.is_empty());
    app.handle_action(AppAction::DeletePlaylist(0));
    assert_eq!(app.playlists.len(), 1);
    assert_eq!(app.playlists[0].name, "Trip");
}

#[test]
fn focus_and_tabs_follow_their_actions() {
    let mut app = app_with(0);
    app.handle_action(AppAction::FocusNext);
    assert_eq!(app.focus, FocusedPane::Playlist);
    app.handle_action(AppAction::FocusPrev);
    app.handle_action(AppAction::FocusPrev);
    assert_eq!(app.focus, FocusedPane::Lyrics);
    app.handle_action(AppAction::SwitchTab(Tab::Genre));
    assert_eq!(app.tab, Tab::Genre);
    app.handle_action(AppAction::Quit);
    assert!(app.should_quit);
}

#[test]
fn a_rescan_is_asked_for_only_after_the_first_scan() {
    let mut app = app_with(0);
    assert!(app.handle_action(AppAction::LibrarySync).is_empty());
    app.initial_scan_complete = true;
    let eff = app.handle_action(AppAction::LibrarySync);
    assert!(matches!(eff.as_slice(), [Effect::Rescan]));
    assert_eq!(app.sync_state, SyncState::Scanning);
    assert!(app.handle_action(AppAction::LibrarySync).is_empty());
}

#[test]
fn a_new_library_carries_the_queue_over_by_path() {
    let mut app = app_with(3);
    app.handle_action(AppAction::AddToQueue(vec![0, 1, 2]));
    app.handle_action(AppAction::PlayQueueIndex(2));
    app.handle_action(AppAction::AddToPlaylist { playlist_idx: 0, track_idx: 1 });
    let mut lib = Library::new();
    lib.tracks.push(track("/m/2.flac", "T2", 3000));
    lib.tracks.push(track("/m/new.flac", "New", 3000));
    lib.tracks.push(track("/m/0.flac", "T0", 1000));
    app.replace_library(lib);
    assert_eq!(app.queue.tracks, vec![2, 0]);
    assert_eq!(app.current_track().unwrap().path, "/m/2.flac");
    assert!(app.playlists[0].tracks.is_empty());
}

#[test]
fn audio_reports_become_actions_or_play_states() {
    let mut app = app_with(0);
    let a = on_audio_event(&mut app, AudioEvent::PositionUpdate { position_ms: 5, duration_ms: 9 });
    assert!(matches!(a, Some(AppAction::UpdatePosition { position_ms: 5, duration_ms: 9 })));
    assert!(matches!(on_audio_event(&mut app, AudioEvent::TrackFinished), Some(AppAction::TrackFinished)));
    assert!(on_audio_event(&mut app, AudioEvent::Playing).is_none());
    assert_eq!(app.playback.state, PlayState::Playing);
    on_audio_event(&mut app, AudioEvent::DeviceError("gone".to_string()));
    assert_eq!(app.playback.state, PlayState::Stopped);
    on_audio_event(&mut app, AudioEvent::TrackError("bad".to_string()));
    assert_eq!(app.playback.state, PlayState::Stopped);
}

#[test]
fn only_queues_of_library_tracks_are_allowed() {
    let app = app_with(2);
    assert!(action_allowed(&app, &AppAction::AddToQueue(vec![0, 1])));
    assert!(!action_allowed(&app, &AppAction::AddToQueue(vec![0, 2])));
    assert!(action_allowed(&app, &AppAction::Quit));
}

#[test]
fn a_saved_session_is_restored_and_snapshotted_back() {
    let mut app = app_with(2);
    let mut ui = Ui::new("/m".to_string(), 0);
    let saved = SavedSettings {
        volume: 250,
        shuffle: true,
        repeat: "One".to_string(),
        pane_widths: [30, 40, 30],
        playlists: vec![SavedPlaylist { name: "Mix".to_string(), tracks: vec!["/m/1.flac".to_string(), "/gone.flac".to_string()] }],
        info_view: "AlbumArt".to_string(),
        right_split: 95,
    };
    let eff = restore_session(&mut app, &mut ui, Some(saved));
    assert!(matches!(eff.as_slice(), [Effect::Player(PlayerCommand::SetVolume(100))]));
    assert_eq!(app.queue.tracks, vec![0, 1]);
    assert_eq!(app.playback.volume, 100);
    assert!(app.playback.shuffle);
    assert_eq!(app.playback.repeat, RepeatMode::One);
    assert_eq!(ui.pane_widths, [30, 40, 30]);
    assert_eq!(ui.info_view, InfoView::AlbumArt);
    assert_eq!(ui.right_split, 90);
    assert_eq!(app.playlists[0].tracks, vec![1]);
    assert_eq!(app.playlists[0].missing, vec!["/gone.flac".to_string()]);
    let snap = session_snapshot(&app, &ui);
    assert_eq!(snap.repeat, "One");
    assert_eq!(snap.info_view, "AlbumArt");
    assert_eq!(snap.playlists[0].tracks, vec!["/m/1.flac".to_string(), "/gone.flac".to_string()]);
}

#[test]
fn without_saved_playlists_a_bookmarks_playlist_is_made() {
    let lib = Library::new();
    let pls = restore_playlists(&Vec::new(), &lib);
    assert_eq!(pls.len(), 1);
    assert_eq!(pls[0].name, "Bookmarks");
    let pl = Playlist { name: "P".to_string(), tracks: vec![0, 7], missing: vec!["/x".to_string()] };
    let mut lib = Library::new();
    lib.tracks.push(track("/a.flac", "A", 1));
    let saved = snapshot_playlists(&vec![pl], &lib);
    assert_eq!(saved[0].tracks, vec!["/a.flac".to_string(), "/x".to_string()]);
}

#[test]
fn an_edited_file_invalidates_its_entry() {
    let e = CacheEntry { track: track("/m/a子.flac", "t", 192_000), mtime: 1_700_000_000, size: 21_715_800 };
    assert!(is_fresh(&e, (e.mtime, e.size)));
    assert!(!is_fresh(&e, (e.mtime + 1, e.size)));
    assert!(!is_fresh(&e, (e.mtime, e.size + 1)));
}

#[test]
fn a_cache_from_an_older_build_is_ignored_rather_than_misread() {
    assert!(accepts_cache_version(CACHE_VERSION));
    assert!(!accepts_cache_version(CACHE_VERSION + 1));
}
