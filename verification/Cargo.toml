[package]
name = "users_api"
version = "0.1.0"
edition = "2021"
publish = false
rust-version = "1.95"

[dependencies]
dotenvy = "=0.15.7"
libsql = "=0.10.0"
ntex = { version = "=3.12.3", features = ["tokio"] }
ntex-httparse = "=2.2.0"
serde = { version = "=1.0.229", features = ["derive"] }
serde_json = "=1.0.154"

[dev-dependencies]
tokio = { version = "=1.54.1", features = ["rt", "rt-multi-thread", "time"] }
