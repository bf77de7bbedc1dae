use ommp::library::{album_title, Library, SearchMode, Track};
use ommp::scanner::{is_audio_candidate, sort_tracks, Tags};

fn track(path: &str, title: &str, artist: &str, album: &str, album_artist: &str, genre: &str) -> Track {
    Track {
        path: path.to_string(),
        title: title.to_string(),
        artist: artist.to_string(),
        album: album.to_string(),
        album_artist: album_artist.to_string(),
        genre: genre.to_string(),
        track_number: None,
        duration_ms: 0,
        bitrate: None,
        lyrics: None,
    }
}

fn sample() -> Library {
    let mut lib = Library::new();
    lib.tracks.push(track("/m/Rock/a.flac", "Alpha", "Zed", "Hits", "", "Rock"));
    lib.tracks.push(track("/m/Rock/b.MP3", "Beta", "", "Hits", "Various", "Rock"));
    lib.tracks.push(track("/m/Jazz/c.mp3", "Gamma", "Amy", "Blue", "", "Jazz"));
    lib.tracks.push(track("/m/d.ogg", "Delta", "Amy", "", "", ""));
    lib
}

#[test]
fn artists_are_listed_in_order_with_untagged_last() {
    let lib = sample();
    assert_eq!(lib.get_artists(), vec!["Amy".to_string(), "Zed".to_string(), "Unknown Artist".to_string()]);
    assert_eq!(lib.get_tracks_by_artist("Amy"), vec![2, 3]);
    assert_eq!(lib.get_tracks_by_artist("Unknown Artist"), vec![1]);
}

#[test]
fn a_track_tagged_unknown_artist_sorts_with_the_named_artists() {
    let mut lib = Library::new();
    lib.tracks.push(track("/m/a.mp3", "A", "", "", "", ""));
    lib.tracks.push(track("/m/b.mp3", "B", "Unknown Artist", "", "", ""));
    lib.tracks.push(track("/m/c.mp3", "C", "Zed", "", "", ""));
    // The tag sorts among the tags; the closing heading stands for the untagged.
    assert_eq!(
        lib.get_artists(),
        vec!["Unknown Artist".to_string(), "Zed".to_string(), "Unknown Artist".to_string()]
    );
    assert_eq!(lib.get_tracks_by_artist("Unknown Artist"), vec![0]);
    assert_eq!(lib.get_tracks_by_artist("Zed"), vec![2]);
    let mut only_tagged = Library::new();
    only_tagged.tracks.push(track("/m/b.mp3", "B", "Unknown Artist", "", "", ""));
    only_tagged.tracks.push(track("/m/c.mp3", "C", "Zed", "", "", ""));
    assert_eq!(only_tagged.get_artists(), vec!["Unknown Artist".to_string(), "Zed".to_string()]);
    assert_eq!(only_tagged.get_tracks_by_artist("Unknown Artist"), Vec::<usize>::new());
}

#[test]
fn albums_pair_with_the_album_artist_or_the_track_artist() {
    let lib = sample();
    assert_eq!(
        lib.get_albums(),
        vec![
            ("Blue".to_string(), "Amy".to_string()),
            ("Hits".to_string(), "Various".to_string()),
            ("Hits".to_string(), "Zed".to_string()),
        ]
    );
    assert_eq!(lib.get_tracks_by_album("Hits", "Zed"), vec![0]);
    assert_eq!(lib.get_tracks_by_album("Hits", "Various"), vec![1]);
}

#[test]
fn genres_and_formats_are_listed_once_each() {
    let lib = sample();
    assert_eq!(lib.get_genres(), vec!["Jazz".to_string(), "Rock".to_string()]);
    assert_eq!(lib.get_tracks_by_genre("Rock"), vec![0, 1]);
    assert_eq!(lib.get_formats(), vec!["flac".to_string(), "mp3".to_string(), "ogg".to_string()]);
    assert_eq!(lib.get_tracks_by_format("mp3"), vec![1, 2]);
    assert_eq!(
        lib.format_counts(),
        vec![("flac".to_string(), 1), ("mp3".to_string(), 2), ("ogg".to_string(), 1)]
    );
}

#[test]
fn directories_list_subfolders_and_direct_tracks() {
    let lib = sample();
    let (dirs, tracks) = lib.get_directory_entries("/m");
    assert_eq!(dirs, vec!["Jazz".to_string(), "Rock".to_string()]);
    assert_eq!(tracks, vec![3]);
    let (dirs, tracks) = lib.get_directory_entries("/m/Rock");
    assert!(dirs.is_empty());
    assert_eq!(tracks, vec![0, 1]);
}

#[test]
fn a_path_finds_its_track() {
    let lib = sample();
    assert_eq!(lib.path_to_index("/m/Jazz/c.mp3"), Some(2));
    assert_eq!(lib.path_to_index("/m/none.mp3"), None);
}

#[test]
fn search_ignores_case_and_understands_fields_and_extensions() {
    let lib = sample();
    assert_eq!(lib.search(""), Vec::<usize>::new());
    assert_eq!(lib.search("AMY"), vec![2, 3]);
    assert_eq!(lib.search("gam"), vec![2]);
    assert_eq!(lib.search("*.MP3"), vec![1, 2]);
    assert_eq!(lib.search("artist:zed"), vec![0]);
    assert_eq!(lib.search("genre:jazz"), vec![2]);
    assert!(matches!(Library::search_mode("*.ogg"), SearchMode::Extension(_)));
}

#[test]
fn untagged_fields_read_as_unknown() {
    let lib = sample();
    assert_eq!(lib.tracks[1].display_artist(), "Unknown Artist");
    assert_eq!(lib.tracks[3].display_album(), "Unknown Album");
    assert_eq!(lib.tracks[0].display_artist(), "Zed");
    let mut t = track("/x.flac", "T", "A", "B", "", "");
    t.duration_ms = 65_900;
    assert_eq!(t.format_duration(), "1:05");
}

#[test]
fn only_audio_files_that_are_not_resource_forks_are_scanned() {
    assert!(is_audio_candidate("/m/a.flac"));
    assert!(is_audio_candidate("/m/a.MP3"));
    assert!(!is_audio_candidate("/m/cover.jpg"));
    assert!(!is_audio_candidate("/m/._a.flac"));
    assert!(!is_audio_candidate("/m/noext"));
}

#[test]
fn an_untitled_file_is_listed_by_its_stem() {
    let tags = Tags {
        title: String::new(),
        artist: "A".to_string(),
        album: String::new(),
        album_artist: String::new(),
        genre: String::new(),
        track_number: Some(3),
        lyrics: None,
    };
    let t = Track::from_tags("/m/Song Name.flac".to_string(), tags, 1000, Some(320));
    assert_eq!(t.title, "Song Name");
    assert_eq!(t.track_number, Some(3));
    assert_eq!(t.bitrate, Some(320));
}

#[test]
fn scanned_tracks_are_sorted_by_artist_album_and_number() {
    let mut a = track("/m/2.flac", "Two", "Amy", "Blue", "", "");
    a.track_number = Some(2);
    let mut b = track("/m/1.flac", "One", "Amy", "Blue", "", "");
    b.track_number = Some(1);
    let c = track("/m/z.flac", "Z", "Adam", "X", "", "");
    let sorted = sort_tracks(vec![a, b, c]);
    let titles: Vec<&str> = sorted.iter().map(|t| t.title.as_str()).collect();
    assert_eq!(titles, vec!["One", "Two", "Z"]);
}

#[test]
fn every_track_is_under_exactly_one_artist_and_counts_match_the_format_lists() {
    let lib = sample();
    let artists = lib.get_artists();
    let mut seen = vec![0; lib.tracks.len()];
    for a in &artists {
        let ts = lib.get_tracks_by_artist(a);
        assert!(!ts.is_empty());
        for t in ts {
            seen[t] += 1;
        }
    }
    assert!(seen.iter().all(|&n| n == 1));
    for (f, n) in lib.format_counts() {
        assert_eq!(lib.get_tracks_by_format(&f).len(), n);
        assert!(n >= 1);
    }
    for (al, ar) in lib.get_albums() {
        assert!(!lib.get_tracks_by_album(&al, &ar).is_empty());
    }
}

#[test]
fn format_counts_add_up_to_the_tracks_with_an_extension() {
    let mut lib = sample();
    lib.tracks.push(track("/m/README", "R", "", "", "", ""));
    let total: usize = lib.format_counts().iter().map(|(_, n)| *n).sum();
    assert_eq!(total, 4);
    assert_eq!(album_title(""), "Unknown Album");
    assert_eq!(album_title("Blue"), "Blue");
}
