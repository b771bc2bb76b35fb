[package]
name = "opencode_forger"
version = "0.1.0"
edition = "2021"
publish = false

[dependencies]
quick-xml = "=0.38.4"
similar = "=2.7.0"
unicode-width = "=0.2.0"
anyhow = "=1.0.104"
serde = { version = "=1.0.229", features = ["derive"] }
serde_json = "=1.0.154"
clap = { version = "=4.6.7", features = ["derive"] }
console = "=0.15.11"
crossterm = "=0.28.1"
ratatui = "=0.29.0"
iocraft = "=0.9.3"
smol = "=2.0.2"
rusqlite = "=0.41.1"
chrono = "=0.4.45"
actix-web = { version = "=4.18.1", default-features = false, features = ["macros"] }
mime_guess = "=2.0.5"
rust-embed = "=8.13.0"
open = "=5.4.5"
self_update = { version = "=1.3.3", default-features = false, features = ["github", "reqwest", "rustls"] }
