[package]
name = "craft_gate"
version = "0.1.0"
edition = "2021"
publish = false

[dependencies]
anyhow = "*"
chrono = "*"
clap = { version = "*", features = ["derive"] }
dashmap = "=6.2.1"
guess = { version = "=0.1.5", features = ["web"] }
serde = { version = "*", features = ["derive"] }
thiserror = "*"
tokio = { version = "*", features = ["full"] }
toml = "*"
tracing = "*"
tracing-appender = "*"
tracing-subscriber = "*"
url = { version = "*", features = ["serde"] }
uuid = { version = "*", features = ["v4"] }
