[package]
name = "blockcell"
version = "0.1.0"
edition = "2021"
publish = false

[dependencies]
base64 = "0.22"
serde = { version = "1", features = ["derive"] }
serde_json = "1"
tokio = { version = "1", features = ["rt-multi-thread", "macros", "sync", "time", "fs", "io-util"] }
tracing = "0.1"
reqwest = { version = "0.12", default-features = false, features = ["rustls-tls"] }
chrono = "0.4"
dirs = "5"
async-trait = "0.1"
rusqlite = { version = "0.31", features = ["bundled"] }
rabitq-rs = "*"
