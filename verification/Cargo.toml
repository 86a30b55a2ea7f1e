[package]
name = "workbetter"
version = "0.1.0"
edition = "2021"
publish = false

[dependencies]
chrono = { version = "0.4", default-features = false, features = ["clock", "std"] }
uuid = { version = "1", features = ["v4"] }
cron = "*"
serde = { version = "1", features = ["derive"] }
serde_json = "1"
thiserror = "*"
tokio = { version = "1", features = ["rt", "rt-multi-thread", "time", "sync", "macros"] }
async-trait = "*"
tracing = "*"

[dev-dependencies]
tempfile = "*"
