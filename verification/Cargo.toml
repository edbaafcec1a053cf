[package]
name = "filesync"
version = "0.1.0"
edition = "2021"
publish = false

[dependencies]
anyhow = "*"
chrono = "*"
colored = "*"
fern = { version = "*", features = ["colored"] }
human_bytes = "*"
humantime-serde = "*"
imara-diff = "=0.2.0"
log = { version = "*", features = ["serde"] }
reqwest = { version = "*", default-features = false }
serde = { version = "*", features = ["derive"] }
serde_yaml = "*"
tokio = { version = "*", features = ["macros", "rt-multi-thread", "signal", "time"] }
