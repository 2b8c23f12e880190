[package]
name = "settings_manager"
version = "0.1.0"
edition = "2021"
publish = false

[dependencies]
rusqlite = { version = "0.31", features = ["bundled"] }
serde_json = "1"
chrono = "0.4"
clap = { version = "4", features = ["derive"] }
cursive = "0.20"
sysinfo = "0.29"
