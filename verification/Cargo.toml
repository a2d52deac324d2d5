[package]
name = "trakt_updater"
version = "0.1.0"
edition = "2021"
publish = false

[dependencies]
chrono = { version = "0.4", features = ["serde"] }
color-eyre = "0.6"
crossterm = "0.27"
csv = "1"
diesel = { version = "2.1", features = ["sqlite", "chrono"] }
dotenvy = "0.15"
eyre = "0.6"
futures = "0.3"
governor = "0.6"
log = "0.4"
nonzero_ext = "0.3"
ratatui = "0.23"
reqwest = { version = "0.11", default-features = false }
serde = { version = "1", features = ["derive"] }
serde_json = "1"
simplelog = "0.12"
tokio = { version = "1", features = ["full"] }
tui-input = "0.8"
