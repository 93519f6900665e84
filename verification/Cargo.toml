[package]
name = "sketchybar_daemon"
version = "0.2.0"
edition = "2021"
publish = false

[dependencies]
anyhow = "1"
chrono = "0.4"
futures = "0.3"
regex = "1"
serde = { version = "1", features = ["derive"] }
serde_json = "1"
signal-hook = "0.3"
signal-hook-tokio = { version = "0.3", features = ["futures-v0_3"] }
sketchybar-rs = "*"
tokio = { version = "1", features = ["full"] }
tracing = "0.1"
tracing-subscriber = { version = "0.3", features = ["env-filter"] }
