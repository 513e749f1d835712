[package]
name = "claude_core"
version = "0.1.0"
edition = "2021"
publish = false

[dependencies]
async-trait = "=0.1.92"
chrono = { version = "=0.4.45", features = ["serde"] }
dirs = "=5.0.1"
futures = "=0.3.34"
jni = "0.21"
once_cell = "=1.21.4"
parking_lot = "=0.12.5"
reqwest = { version = "=0.12.28", default-features = false, features = ["json", "stream", "rustls-tls"] }
rusqlite = { version = "=0.31.0", features = ["bundled"] }
serde = { version = "=1.0.229", features = ["derive"] }
serde_json = "=1.0.154"
thiserror = "=1.0.69"
tokio = { version = "=1.54.1", features = ["rt-multi-thread", "time", "sync", "macros"] }
uuid = { version = "=1.29.0", features = ["v4"] }
