[package]
name = "crabify"
version = "0.1.0"
edition = "2021"
publish = false

[dependencies]
anyhow = "*"
chrono = "*"
crossterm = "*"
dirs = "*"
dotenvy = "*"
open = "*"
ratatui = "*"
rspotify = "*"
serde = { version = "*", features = ["derive"] }
serde_json = "*"
thiserror = "*"
tiny_http = "*"
tokio = { version = "*", features = ["rt-multi-thread", "macros", "sync", "time"] }
url = "*"
