[package]
name = "triagebot_server"
version = "0.1.0"
edition = "2021"
publish = false

[dependencies]
anyhow = "1"
axum = "0.8"
bytes = "1"
dotenvy = "0.15"
futures = "0.3"
http-body-util = "0.1"
hyper = { version = "=1.12.0", features = ["server", "http1"] }
octocrab = "0.44"
route-recognizer = "=0.3.1"
serde_json = "1"
tokio = { version = "1", features = ["macros", "net", "rt", "sync", "time"] }
tower = { version = "0.5", features = ["buffer", "limit", "load-shed", "util"] }
tracing = "0.1"
tracing-subscriber = { version = "0.3", features = ["env-filter"] }
url = "=2.5.8"
