[package]
name = "byte"
version = "0.4.0"
edition = "2021"
publish = false

[dependencies]
anyhow = "1.0"
atty = "0.2"
chrono = "0.4"
clap = { version = "4.5", features = ["derive"] }
crossterm = "0.28.1"
dirs = "6.0"
lazy_static = "1.4"
notify = "7.0"
notify-debouncer-full = "0.4"
ratatui = "0.29"
serde = { version = "1.0", features = ["derive"] }
serde_json = "1.0"
shellexpand = "3.1"
skim = "0.15"
toml = "0.8"
walkdir = "2"

[dev-dependencies]
tempfile = "3.14"
