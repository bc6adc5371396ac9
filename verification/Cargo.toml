[package]
name = "ash_flare"
version = "0.1.0"
edition = "2021"
publish = false

[dependencies]
tokio = { version = "1", features = ["full"] }
async-trait = "0.1"
serde = { version = "1", features = ["derive"] }
serde_json = "1"
bincode = "1.3"
dashmap = "6"
slog = "2"
slog-scope = "4"
thiserror = "2"
