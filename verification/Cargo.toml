[package]
name = "gdrive_sync"
version = "0.1.0"
edition = "2021"
publish = false

[dependencies]
chrono = "=0.4.45"
serde = { version = "1", features = ["derive"] }
serde_json = "1"
tokio = { version = "1", features = ["rt-multi-thread", "time", "macros"] }
notify-debouncer-full = "=0.7.0"
google-drive3 = { version = "=7.0.0", features = ["yup-oauth2-service-account"] }
hyper-rustls = "=0.27.10"
hyper-util = "=0.1.21"
