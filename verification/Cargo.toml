[package]
name = "nightly_watch"
version = "0.1.0"
edition = "2021"
publish = false

[dependencies]
egg-mode = "=0.16.1"
slog = "=2.8.2"
slog-async = "=2.8.0"
slog-term = "=2.9.2"
time = "=0.3.55"
tokio = { version = "1", features = ["rt", "time", "net", "macros"] }
