[package]
name = "launcher_core"
version = "0.1.0"
edition = "2021"
publish = false

[dependencies]
base64 = "0.22"
chrono = "0.4"
flate2 = "1"
futures = "0.3"
hex = "0.4"
notify = "*"
notify-debouncer-full = "*"
relative-path = "*"
reqwest = { version = "*", default-features = false, features = ["stream"] }
sanitize-filename = "*"
serde = { version = "1", features = ["derive"] }
serde_json = "1"
sha1 = "0.10"
thiserror = "*"
tokio = { version = "1", features = ["rt", "rt-multi-thread", "sync", "fs", "io-util"] }
