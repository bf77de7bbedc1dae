//! Core logic of ommp, a terminal music player: playback and queue state,
//! library browsing and search, pane navigation, layout arithmetic and the
//! persisted-session model. Drawing, audio output and file I/O live in `app/`.

pub mod state;
pub mod strings;
pub mod geometry;
pub mod order;
pub mod paths;
pub mod library;
pub mod text;
pub mod scanner;
pub mod session;
pub mod persist;
pub mod input;
pub mod list_pane;
pub mod panes;
pub mod library_pane;
pub mod ui;
pub mod keys;
pub mod mouse;
pub mod events;
pub mod widgets;
pub mod player;
pub mod laws;
