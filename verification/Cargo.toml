[package]
name = "ommp"
version = "0.1.0"
edition = "2021"
publish = false

[dependencies]
unicode-width = "0.2"
ratatui = "=0.29.0"
rand = "0.8"
crossterm = "0.28"
lofty = "0.22"
notify = "8"
walkdir = "2"
crossbeam-channel = "0.5"
serde = { version = "1", features = ["derive"] }
serde_json = "1"
anyhow = "1"
libc = "0.2"
