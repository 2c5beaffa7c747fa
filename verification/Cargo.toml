[package]
name = "clipboard_watcher"
version = "0.1.0"
edition = "2021"
publish = false

[dependencies]
tokio = { version = "1", default-features = false, features = ["sync", "rt"] }
snafu = "0.8"
tracing = "0.1"
