[package]
name = "mb_library"
version = "0.1.0"
edition = "2021"
publish = false

[dependencies]
anyhow = "1"
chrono = "0.4"
crossterm = { version = "0.27", features = ["event-stream"] }
futures = "0.3"
pathdiff = "0.2"
ratatui = "0.26"
reqwest = { version = "0.12", features = ["json"] }
sanitize-filename = "0.5"
serde = { version = "1", features = ["derive"] }
serde_json = "1"
sled = "0.34"
thiserror = "1"
tokio = { version = "1", features = ["full"] }
uuid = { version = "1", features = ["v4"] }
