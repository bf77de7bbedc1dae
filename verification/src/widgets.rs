//! What the dashboard's widgets show, computed from the session: the status
//! bar's texts and volume steps, the queue's columns and rows, the search
//! and playlist modals' texts, the info pane's clock digits and album-art
//! placement, the track details, the splash's fade and the about screen's
//! layout. Drawing them is left to the terminal front end.

use vstd::prelude::*;
use crate::geometry::{Rect, sat_sub, min_int, max_int};
use crate::library::{Track, unknown_artist};
use crate::paths::{spec_extension, path_extension};
use crate::session::App;
use crate::state::{PlayState, RepeatMode, Playlist};
use crate::strings::{push_all, push_char, spec_uppercase, to_uppercase, ascii_upper, ascii_lower, to_ascii_uppercase, to_ascii_lowercase, str_eq};
use crate::text::{clock_text, decimal, format_clock, push_decimal};
use crate::ui::{PlaylistModalMode, SPLASH_FADE_IN_MS, SPLASH_FADE_OUT_AT_MS, SPLASH_END_MS};

verus! {

/// The track playing, if the current queue entry names one.
pub open spec fn playing(app: App) -> Option<Track> {
    match app.queue.current_index {
        Some(qi) => if qi < app.queue.tracks@.len() && app.queue.tracks@[qi as int] < app.library.tracks@.len() {
            Some(app.library.tracks@[app.queue.tracks@[qi as int] as int])
        } else {
            None
        },
        None => None,
    }
}

/// The library track of the current queue entry, if there is one.
pub open spec fn current_entry_track(app: App) -> Option<usize> {
    match app.queue.current_index {
        Some(qi) => if qi < app.queue.tracks@.len() { Some(app.queue.tracks@[qi as int]) } else { None },
        None => None,
    }
}

/// Some playlist holds library track `t`.
pub open spec fn in_some_playlist(pls: Seq<Playlist>, t: usize) -> bool {
    exists|k: int| 0 <= k < pls.len() && #[trigger] pls[k].tracks@.contains(t)
}

fn in_any_playlist(pls: &Vec<Playlist>, t: usize) -> (r: bool)
    ensures
        r == in_some_playlist(pls@, t),
{
    let mut i: usize = 0;
    while i < pls.len()
        invariant
            i <= pls@.len(),
            forall|k: int| 0 <= k < i ==> !(#[trigger] pls@[k].tracks@.contains(t)),
        decreases pls@.len() - i,
    {
        if crate::session::contains_index(&pls[i].tracks, t) {
            return true;
        }
        i += 1;
    }
    false
}

// -------------------------------------------------------------- status bar

pub open spec fn state_text(s: PlayState) -> Seq<char> {
    match s {
        PlayState::Playing => "Playing"@,
        PlayState::Paused => "Paused"@,
        PlayState::Stopped => "Stopped"@,
    }
}

pub fn state_label(s: PlayState) -> (r: &'static str)
    ensures
        r@ == state_text(s),
{
    match s {
        PlayState::Playing => "Playing",
        PlayState::Paused => "Paused",
        PlayState::Stopped => "Stopped",
    }
}

/// " pos/dur", then " (N kbps)" written as " (Nkbps)" when the playing
/// track's bitrate is known; times are whole seconds as m:ss.
pub open spec fn status_time_text(app: App) -> Seq<char> {
    let bitrate = match playing(app) {
        Some(t) => match t.bitrate {
            Some(b) => " ("@ + decimal(b as nat) + "kbps)"@,
            None => Seq::empty(),
        },
        None => Seq::empty(),
    };
    " "@ + clock_text((app.playback.position_ms / 1000) as nat) + "/"@ + clock_text((app.playback.duration_ms / 1000) as nat) + bitrate
}

/// How many of the eight volume steps are lit at `volume` percent.
pub open spec fn volume_steps(volume: u32) -> nat {
    min_int(volume * 8 / 100, 8) as nat
}

/// The status bar's content.
#[derive(Debug, Clone)]
pub struct StatusBar {
    pub state: PlayState,
    pub time: String,
    pub title: String,
    pub subtitle: String,
    pub volume: u32,
    pub volume_steps: usize,
    pub bookmarked: bool,
    pub shuffle: bool,
    pub repeat: RepeatMode,
}

/// The status bar: play state and time on the left, the playing track's
/// title and "artist - album" in the middle ("No track playing" otherwise),
/// volume steps, the bookmark star, shuffle and repeat on the right.
pub fn status_bar(app: &App) -> (s: StatusBar)
    requires
        app.playback.volume <= 100,
    ensures
        s.state == app.playback.state,
        s.time@ == status_time_text(*app),
        s.title@ == (match playing(*app) {
            Some(t) => t.title@,
            None => "No track playing"@,
        }),
        s.subtitle@ == (match playing(*app) {
            Some(t) => (if t.artist@.len() == 0 { unknown_artist() } else { t.artist@ }) + " - "@
                + (if t.album@.len() == 0 { "Unknown Album"@ } else { t.album@ }),
            None => Seq::empty(),
        }),
        s.volume == app.playback.volume,
        s.volume_steps == volume_steps(app.playback.volume),
        s.bookmarked == (match current_entry_track(*app) {
            Some(t) => in_some_playlist(app.playlists@, t),
            None => false,
        }),
        s.shuffle == app.playback.shuffle,
        s.repeat == app.playback.repeat,
{
    let mut time = String::from_str(" ");
    let pos = format_clock(app.playback.position_ms / 1000);
    push_all(&mut time, pos.as_str());
    push_all(&mut time, "/");
    let dur = format_clock(app.playback.duration_ms / 1000);
    push_all(&mut time, dur.as_str());
    let ghost base = time@;
    assert(base =~= " "@ + clock_text((app.playback.position_ms / 1000) as nat) + "/"@ + clock_text((app.playback.duration_ms / 1000) as nat));
    let current = app.current_track();
    let (title, subtitle) = match current {
        Some(t) => {
            if let Some(b) = t.bitrate {
                push_all(&mut time, " (");
                push_decimal(&mut time, b as u64);
                push_all(&mut time, "kbps)");
                assert(time@ =~= base + (" ("@ + decimal(b as nat) + "kbps)"@));
            } else {
                assert(time@ =~= base + Seq::<char>::empty());
            }
            let mut sub = String::from_str(t.display_artist());
            push_all(&mut sub, " - ");
            push_all(&mut sub, t.display_album());
            (t.title.clone(), sub)
        },
        None => {
            assert(time@ =~= base + Seq::<char>::empty());
            (String::from_str("No track playing"), String::new())
        },
    };
    let bookmarked = match app.queue.current_index {
        Some(qi) => if qi < app.queue.tracks.len() { in_any_playlist(&app.playlists, app.queue.tracks[qi]) } else { false },
        None => false,
    };
    let steps = app.playback.volume * 8 / 100;
    StatusBar {
        state: app.playback.state,
        time,
        title,
        subtitle,
        volume: app.playback.volume,
        volume_steps: if steps > 8 { 8 } else { steps as usize },
        bookmarked,
        shuffle: app.playback.shuffle,
        repeat: app.playback.repeat,
    }
}

/// The progress bar's time: " pos / dur".
pub fn progress_time(app: &App) -> (s: String)
    ensures
        s@ == " "@ + clock_text((app.playback.position_ms / 1000) as nat) + " / "@
            + clock_text((app.playback.duration_ms / 1000) as nat),
{
    let mut s = String::from_str(" ");
    let pos = format_clock(app.playback.position_ms / 1000);
    push_all(&mut s, pos.as_str());
    push_all(&mut s, " / ");
    let dur = format_clock(app.playback.duration_ms / 1000);
    push_all(&mut s, dur.as_str());
    s
}

// ------------------------------------------------------------------- queue

/// Widths of the queue's title and artist columns in a pane `width` columns
/// wide: after the fixed columns (prefix, extension, duration and gaps,
/// fourteen in all), the title takes 55% of the rest and the artist what
/// remains, each at least four.
pub open spec fn queue_columns_spec(width: u16) -> (usize, usize) {
    let flex = sat_sub(width as int, 14);
    let title = max_int(flex * 55 / 100, 4);
    (title as usize, max_int(sat_sub(flex, title), 4) as usize)
}

pub fn queue_columns(width: u16) -> (r: (usize, usize))
    ensures
        r == queue_columns_spec(width),
{
    let flex: usize = if width > 14 { (width - 14) as usize } else { 0 };
    let t = flex * 55 / 100;
    let title = if t > 4 { t } else { 4 };
    let rest = if flex > title { flex - title } else { 0 };
    (title, if rest > 4 { rest } else { 4 })
}

/// The colour a format's extension is shown in.
#[derive(Debug, Clone, Copy, PartialEq, Eq, Structural)]
pub enum FormatColor {
    Green,
    Cyan,
    Yellow,
    Magenta,
    Blue,
    White,
}

pub open spec fn format_color_of(ext: Seq<char>) -> FormatColor {
    if ext == "FLAC"@ {
        FormatColor::Green
    } else if ext == "M4A"@ || ext == "AAC"@ || ext == "MP4"@ || ext == "ALAC"@ {
        FormatColor::Cyan
    } else if ext == "MP3"@ {
        FormatColor::Yellow
    } else if ext == "OGG"@ {
        FormatColor::Magenta
    } else if ext == "WAV"@ || ext == "WAVE"@ {
        FormatColor::Blue
    } else {
        FormatColor::White
    }
}

pub fn format_color(ext: &str) -> (r: FormatColor)
    ensures
        r == format_color_of(ext@),
{
    if str_eq(ext, "FLAC") {
        FormatColor::Green
    } else if str_eq(ext, "M4A") || str_eq(ext, "AAC") || str_eq(ext, "MP4") || str_eq(ext, "ALAC") {
        FormatColor::Cyan
    } else if str_eq(ext, "MP3") {
        FormatColor::Yellow
    } else if str_eq(ext, "OGG") {
        FormatColor::Magenta
    } else if str_eq(ext, "WAV") || str_eq(ext, "WAVE") {
        FormatColor::Blue
    } else {
        FormatColor::White
    }
}

/// One queue row's content.
#[derive(Debug, Clone)]
pub struct QueueRow {
    /// The entry is the one playing.
    pub current: bool,
    /// The title, with a star when some playlist holds the track.
    pub title: String,
    pub artist: String,
    /// The file extension uppercased ("?" when there is none).
    pub ext: String,
    pub color: FormatColor,
    pub duration: String,
}

/// Queue entry `i`'s row.
pub fn queue_row(app: &App, i: usize) -> (r: QueueRow)
    requires
        app.wf(),
        i < app.queue.tracks@.len(),
    ensures
        ({
            let ti = app.queue.tracks@[i as int];
            let t = app.library.tracks@[ti as int];
            let ext = match spec_extension(t.path@) {
                Some(e) => spec_uppercase(e),
                None => "?"@,
            };
            &&& r.current == (app.queue.current_index == Some(i))
            &&& r.title@ == (if in_some_playlist(app.playlists@, ti) { t.title@ + " \u{F005}"@ } else { t.title@ })
            &&& r.artist@ == (if t.artist@.len() == 0 { unknown_artist() } else { t.artist@ })
            &&& r.ext@ == ext
            &&& r.color == format_color_of(ext)
            &&& r.duration@ == clock_text((t.duration_ms / 1000) as nat)
        }),
{
    let ti = app.queue.tracks[i];
    let t = &app.library.tracks[ti];
    let mut title = t.title.clone();
    if in_any_playlist(&app.playlists, ti) {
        push_all(&mut title, " \u{F005}");
    }
    let ext = match path_extension(t.path.as_str()) {
        Some(e) => to_uppercase(e.as_str()),
        None => String::from_str("?"),
    };
    let color = format_color(ext.as_str());
    QueueRow {
        current: match app.queue.current_index {
            Some(c) => c == i,
            None => false,
        },
        title,
        artist: String::from_str(t.display_artist()),
        ext,
        color,
        duration: t.format_duration(),
    }
}

// ------------------------------------------------------------------ modals

/// Widths of the search modal's title and artist columns in `width`
/// columns: the title 55% (at least four), the artist what is left after
/// the three-column prefix and gap.
pub open spec fn search_columns_spec(width: u16) -> (usize, usize) {
    let title = max_int(width * 55 / 100, 4);
    (title as usize, sat_sub(width as int, title + 3) as usize)
}

pub fn search_columns(width: u16) -> (r: (usize, usize))
    ensures
        r == search_columns_spec(width),
{
    let t = (width as usize) * 55 / 100;
    let title = if t > 4 { t } else { 4 };
    let used = title + 3;
    (title, if (width as usize) > used { width as usize - used } else { 0 })
}

/// What the search modal says when it lists nothing.
pub fn search_placeholder(input: &str) -> (r: &'static str)
    ensures
        r@ == (if input@.len() == 0 { "Type to search..."@ } else { "No results found"@ }),
{
    if input.is_empty() { "Type to search..." } else { "No results found" }
}

/// The result count under the search list: " found/total ".
pub fn search_count(found: usize, total: usize) -> (s: String)
    ensures
        s@ == " "@ + decimal(found as nat) + "/"@ + decimal(total as nat) + " "@,
{
    let mut s = String::from_str(" ");
    push_decimal(&mut s, found as u64);
    push_all(&mut s, "/");
    push_decimal(&mut s, total as u64);
    push_all(&mut s, " ");
    assert(s@ =~= " "@ + decimal(found as nat) + "/"@ + decimal(total as nat) + " "@);
    s
}

/// The playlist modal's title.
pub fn playlist_modal_title(mode: PlaylistModalMode) -> (r: &'static str)
    ensures
        r@ == (match mode {
            PlaylistModalMode::List => " Playlist "@,
            PlaylistModalMode::Create => " New Playlist "@,
            PlaylistModalMode::Rename => " Rename Playlist "@,
        }),
{
    match mode {
        PlaylistModalMode::List => " Playlist ",
        PlaylistModalMode::Create => " New Playlist ",
        PlaylistModalMode::Rename => " Rename Playlist ",
    }
}

/// The prompt in front of a playlist name being typed.
pub fn playlist_modal_prompt(mode: PlaylistModalMode) -> (r: &'static str)
    ensures
        r@ == (if mode == PlaylistModalMode::Create { "Name:"@ } else { "New name:"@ }),
{
    if mode == PlaylistModalMode::Create { "Name:" } else { "New name:" }
}

/// For each playlist, whether it already holds the playing entry's track
/// (the modal ticks those).
pub fn playlist_ticks(app: &App) -> (r: Vec<bool>)
    ensures
        r@.len() == app.playlists@.len(),
        forall|k: int| 0 <= k < r@.len() ==> #[trigger] r@[k] == (match current_entry_track(*app) {
            Some(t) => app.playlists@[k].tracks@.contains(t),
            None => false,
        }),
{
    let current: Option<usize> = match app.queue.current_index {
        Some(qi) => if qi < app.queue.tracks.len() { Some(app.queue.tracks[qi]) } else { None },
        None => None,
    };
    let mut r: Vec<bool> = Vec::new();
    let mut i: usize = 0;
    while i < app.playlists.len()
        invariant
            i <= app.playlists@.len(),
            current == current_entry_track(*app),
            r@.len() == i,
            forall|k: int| 0 <= k < i ==> #[trigger] r@[k] == (match current {
                Some(t) => app.playlists@[k].tracks@.contains(t),
                None => false,
            }),
        decreases app.playlists@.len() - i,
    {
        let tick = match current {
            Some(t) => crate::session::contains_index(&app.playlists[i].tracks, t),
            None => false,
        };
        r.push(tick);
        i += 1;
    }
    r
}

// --------------------------------------------------------------- info pane

/// The five glyphs of the clock, HH:MM: digit values, 10 for the colon.
pub open spec fn clock_glyphs_spec(hours: u32, minutes: u32) -> Seq<usize> {
    seq![(hours / 10) as usize, (hours % 10) as usize, 10usize, (minutes / 10) as usize, (minutes % 10) as usize]
}

pub fn clock_glyphs(hours: u32, minutes: u32) -> (r: [usize; 5])
    ensures
        r@ == clock_glyphs_spec(hours, minutes),
{
    let r = [(hours / 10) as usize, (hours % 10) as usize, 10, (minutes / 10) as usize, (minutes % 10) as usize];
    assert(r@ =~= clock_glyphs_spec(hours, minutes));
    r
}

/// Where the 24-by-5 clock starts inside an area: centred, or at the edge
/// when the area is no bigger.
pub fn clock_offset(width: u16, height: u16) -> (r: (u16, u16))
    ensures
        r.0 == (if width > 24 { (width - 24) / 2 } else { 0 }),
        r.1 == (if height > 5 { (height - 5) / 2 } else { 0 }),
{
    (if width > 24 { (width - 24) / 2 } else { 0 }, if height > 5 { (height - 5) / 2 } else { 0 })
}

/// The square, centred in `area`, that album art is drawn in, for terminal
/// cells of `font` pixels (each side taken as at least one).
pub open spec fn art_square(area: Rect, font: (u16, u16)) -> Rect {
    let fw = max_int(font.0 as int, 1);
    let fh = max_int(font.1 as int, 1);
    let side = min_int(area.width * fw, area.height * fh);
    let fit_w = side / fw;
    let fit_h = side / fh;
    Rect {
        x: (area.x + sat_sub(area.width as int, fit_w) / 2) as u16,
        y: (area.y + sat_sub(area.height as int, fit_h) / 2) as u16,
        width: min_int(fit_w, area.width as int) as u16,
        height: min_int(fit_h, area.height as int) as u16,
    }
}

pub fn art_rect(area: Rect, font: (u16, u16)) -> (r: Rect)
    requires
        area.x + area.width <= u16::MAX,
        area.y + area.height <= u16::MAX,
    ensures
        r == art_square(area, font),
{
    let fw: u32 = if font.0 > 1 { font.0 as u32 } else { 1 };
    let fh: u32 = if font.1 > 1 { font.1 as u32 } else { 1 };
    assert((area.width as u32) * fw <= 65535 * 65535) by (nonlinear_arith)
        requires
            area.width <= 65535,
            fw <= 65535,
    ;
    assert((area.height as u32) * fh <= 65535 * 65535) by (nonlinear_arith)
        requires
            area.height <= 65535,
            fh <= 65535,
    ;
    let px_w: u32 = area.width as u32 * fw;
    let px_h: u32 = area.height as u32 * fh;
    let side = if px_w < px_h { px_w } else { px_h };
    let fit_w = side / fw;
    let fit_h = side / fh;
    assert(fit_w <= area.width) by (nonlinear_arith)
        requires
            fit_w == side / fw,
            side <= area.width * fw,
            fw >= 1,
    ;
    assert(fit_h <= area.height) by (nonlinear_arith)
        requires
            fit_h == side / fh,
            side <= area.height * fh,
            fh >= 1,
    ;
    let x_off = (area.width - fit_w as u16) / 2;
    let y_off = (area.height - fit_h as u16) / 2;
    Rect { x: area.x + x_off, y: area.y + y_off, width: fit_w as u16, height: fit_h as u16 }
}

/// Where the "No Album Art" placeholder goes: four lines, centred.
pub fn art_placeholder(area: Rect) -> (r: Rect)
    requires
        area.y + area.height <= u16::MAX,
    ensures
        ({
            let off = if area.height > 4 { (area.height - 4) / 2 } else { 0 };
            r == (Rect { x: area.x, y: (area.y + off) as u16, width: area.width, height: (area.height - off) as u16 })
        }),
{
    let off = if area.height > 4 { (area.height - 4) / 2 } else { 0 };
    Rect { x: area.x, y: area.y + off, width: area.width, height: area.height - off }
}

/// The cached album art belongs to another directory than the playing
/// track's (or one of the two is missing while the other is not).
pub fn needs_reload(cached: &Option<String>, dir: &Option<String>) -> (r: bool)
    ensures
        r == (match (cached, dir) {
            (Some(a), Some(b)) => a@ != b@,
            (None, None) => false,
            _ => true,
        }),
{
    match (cached, dir) {
        (Some(a), Some(b)) => !str_eq(a.as_str(), b.as_str()),
        (None, None) => false,
        _ => true,
    }
}

/// A file's first eight bytes say JPEG (FF D8 FF) or PNG.
pub open spec fn image_magic(b: Seq<u8>) -> bool {
    b.len() == 8 && (
        (b[0] == 0xFF && b[1] == 0xD8 && b[2] == 0xFF)
        || b == seq![0x89u8, 0x50u8, 0x4Eu8, 0x47u8, 0x0Du8, 0x0Au8, 0x1Au8, 0x0Au8]
    )
}

pub fn is_image_by_magic(b: &[u8; 8]) -> (r: bool)
    ensures
        r == image_magic(b@),
{
    if b[0] == 0xFF && b[1] == 0xD8 && b[2] == 0xFF {
        return true;
    }
    let png: [u8; 8] = [0x89, 0x50, 0x4E, 0x47, 0x0D, 0x0A, 0x1A, 0x0A];
    let mut i: usize = 0;
    while i < 8
        invariant
            i <= 8,
            b@.len() == 8,
            png@ == seq![0x89u8, 0x50u8, 0x4Eu8, 0x47u8, 0x0Du8, 0x0Au8, 0x1Au8, 0x0Au8],
            !(b@[0] == 0xFF && b@[1] == 0xD8 && b@[2] == 0xFF),
            forall|k: int| 0 <= k < i ==> b@[k] == png@[k],
        decreases 8 - i,
    {
        if b[i] != png[i] {
            assert(b@ != png@);
            return false;
        }
        i += 1;
    }
    assert(b@ =~= png@);
    true
}

/// A file extension a cover image is recognised by: jpg, jpeg or png in any
/// ASCII case.
pub fn is_cover_extension(ext: &str) -> (r: bool)
    ensures
        ({
            let l = ext@.map_values(|c: char| ascii_lower(c));
            r == (l == "jpg"@ || l == "jpeg"@ || l == "png"@)
        }),
{
    let l = to_ascii_lowercase(ext);
    str_eq(l.as_str(), "jpg") || str_eq(l.as_str(), "jpeg") || str_eq(l.as_str(), "png")
}

// ------------------------------------------------------------ track details

/// The details shown for a track, as (label, value) lines: title, artist,
/// album, album artist, genre, track number, duration, bitrate and format,
/// with "N/A" for what the tags leave out.
pub fn track_details(t: &Track) -> (r: Vec<(&'static str, String)>)
    ensures
        r@.len() == 9,
        r@[0].0@ == "Title"@ && r@[0].1@ == t.title@,
        r@[1].0@ == "Artist"@ && r@[1].1@ == (if t.artist@.len() == 0 { unknown_artist() } else { t.artist@ }),
        r@[2].0@ == "Album"@ && r@[2].1@ == (if t.album@.len() == 0 { "Unknown Album"@ } else { t.album@ }),
        r@[3].0@ == "Album Artist"@ && r@[3].1@ == (if t.album_artist@.len() == 0 { "N/A"@ } else { t.album_artist@ }),
        r@[4].0@ == "Genre"@ && r@[4].1@ == (if t.genre@.len() == 0 { "N/A"@ } else { t.genre@ }),
        r@[5].0@ == "Track #"@ && r@[5].1@ == (match t.track_number {
            Some(n) => decimal(n as nat),
            None => "N/A"@,
        }),
        r@[6].0@ == "Duration"@ && r@[6].1@ == clock_text((t.duration_ms / 1000) as nat),
        r@[7].0@ == "Bitrate"@ && r@[7].1@ == (match t.bitrate {
            Some(b) => decimal(b as nat) + " kbps"@,
            None => "N/A"@,
        }),
        r@[8].0@ == "Format"@ && r@[8].1@ == (match spec_extension(t.path@) {
            Some(e) => e,
            None => "unknown"@,
        }).map_values(|c: char| ascii_upper(c)),
{
    let mut r: Vec<(&'static str, String)> = Vec::new();
    r.push(("Title", t.title.clone()));
    r.push(("Artist", String::from_str(t.display_artist())));
    r.push(("Album", String::from_str(t.display_album())));
    r.push(("Album Artist", if t.album_artist.as_str().is_empty() { String::from_str("N/A") } else { t.album_artist.clone() }));
    r.push(("Genre", if t.genre.as_str().is_empty() { String::from_str("N/A") } else { t.genre.clone() }));
    let number = match t.track_number {
        Some(n) => {
            let mut s = String::new();
            push_decimal(&mut s, n as u64);
            s
        },
        None => String::from_str("N/A"),
    };
    r.push(("Track #", number));
    r.push(("Duration", t.format_duration()));
    let bitrate = match t.bitrate {
        Some(b) => {
            let mut s = String::new();
            push_decimal(&mut s, b as u64);
            push_all(&mut s, " kbps");
            s
        },
        None => String::from_str("N/A"),
    };
    r.push(("Bitrate", bitrate));
    let format = match path_extension(t.path.as_str()) {
        Some(e) => to_ascii_uppercase(e.as_str()),
        None => to_ascii_uppercase("unknown"),
    };
    r.push(("Format", format));
    r
}

// ------------------------------------------------------------ splash, about

/// The splash's brightness, in thousandths, `elapsed` milliseconds in:
/// fading in over the first half second, full until the fade-out mark,
/// then fading out to nothing at the end.
pub open spec fn splash_opacity_spec(elapsed: u64) -> u32 {
    if elapsed < SPLASH_FADE_IN_MS {
        (elapsed * 1000 / (SPLASH_FADE_IN_MS as int)) as u32
    } else if elapsed < SPLASH_FADE_OUT_AT_MS {
        1000
    } else if elapsed < SPLASH_END_MS {
        (1000 - (elapsed - SPLASH_FADE_OUT_AT_MS) * 1000 / ((SPLASH_END_MS - SPLASH_FADE_OUT_AT_MS) as int)) as u32
    } else {
        0
    }
}

pub fn splash_opacity(elapsed: u64) -> (r: u32)
    ensures
        r == splash_opacity_spec(elapsed),
        r <= 1000,
{
    if elapsed < SPLASH_FADE_IN_MS {
        (elapsed * 1000 / SPLASH_FADE_IN_MS) as u32
    } else if elapsed < SPLASH_FADE_OUT_AT_MS {
        1000
    } else if elapsed < SPLASH_END_MS {
        let d = elapsed - SPLASH_FADE_OUT_AT_MS;
        assert(d * 1000 / 500 <= 1000) by (nonlinear_arith)
            requires
                d < 500,
        ;
        (1000 - d * 1000 / (SPLASH_END_MS - SPLASH_FADE_OUT_AT_MS)) as u32
    } else {
        0
    }
}

/// How many music-note glyphs the backdrop scatters, and in how many colours.
pub const NOTE_GLYPHS: usize = 4;
pub const NOTE_COLOURS: usize = 3;

/// The backdrop of the about and splash screens: cell (x, y) holds a note
/// when 7x + 13y (as a wrapping 32-bit sum) is a multiple of 37; which
/// glyph and which colour follow from the quotient.
pub open spec fn backdrop_hash(x: u16, y: u16) -> u32 {
    ((x * 7) as u32 + (y * 13) as u32) as u32
}

pub fn backdrop_note(x: u16, y: u16) -> (r: Option<(usize, usize)>)
    ensures
        ({
            let h = backdrop_hash(x, y);
            r == (if h % 37 == 0 {
                Some((((h / 37) % 4) as usize, ((h / 37 + 1) % 3) as usize))
            } else {
                None
            })
        }),
{
    let h: u32 = (x as u32) * 7 + (y as u32) * 13;
    if h % 37 == 0 {
        let q = (h / 37) as usize;
        Some((q % NOTE_GLYPHS, (q + 1) % NOTE_COLOURS))
    } else {
        None
    }
}

/// Rows the about screen's content takes.
pub const ABOUT_CONTENT_ROWS: u16 = 21;

/// Blank rows above the about screen's content, centring it.
pub fn about_top_pad(height: u16) -> (r: u16)
    ensures
        r == sat_sub(height as int, ABOUT_CONTENT_ROWS as int) / 2,
{
    (if height > ABOUT_CONTENT_ROWS { height - ABOUT_CONTENT_ROWS } else { 0 }) / 2
}

} // verus!
