[package]
name = "kix"
version = "0.1.0"
edition = "2021"
publish = false

[dependencies]
serde = { version = "1", features = ["derive"] }
serde_json = "1"
uuid = { version = "1", features = ["v4"] }
chrono = "0.4"
sha2 = "0.10"
hex = "0.4"
thiserror = "*"
tracing = "0.1"
tokio = { version = "1", features = ["sync", "rt", "macros", "fs", "time"] }
tokio-stream = { version = "0.1", features = ["sync"] }
futures-util = "0.3"
dashmap = "*"
url = "2"
axum = "*"
sqlx = { version = "*", default-features = false, features = ["sqlite", "runtime-tokio"] }
