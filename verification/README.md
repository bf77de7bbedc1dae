# ommp — Oh My Music Player

A terminal music player: point it at `~/Music` and press play. It reads your
tags, browses by queue, directory, artist, album, genre, format and playlist,
draws album art in the terminal, and keeps playlists and layout between
sessions.

## Layout

- `src/` — the player's logic, verified with Verus: the library and its
  listings and search, the session (queue, playback, playlists), what every
  key and mouse event does to the interface, the dashboard's geometry, what
  each widget shows, the saved session and tag cache, and the playback clock
  and file-watch debouncing. `src/laws.rs` holds the properties that span
  several operations.
- `app/` — the terminal front end: terminal setup, input and tick threads,
  the audio engine, scanning the music directory and reading tags, watching
  it for changes, reading and writing the JSON files, and drawing with
  ratatui.
- `tests/` — tests of the library on concrete values.
