[package]
name = "game_scanner"
version = "0.1.0"
edition = "2021"
publish = false

[dependencies]
benfred-read-process-memory = "*"
serde = { version = "*", features = ["derive"] }
thiserror = "*"
rusqlite = { version = "*", features = ["bundled"] }
sysinfo = "*"
