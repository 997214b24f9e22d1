[package]
name = "website"
version = "0.1.0"
edition = "2021"
publish = false

[dependencies]
anyhow = "=1.0.104"
askama = "=0.16.1"
axum = "=0.8.9"
axum-anyhow = "=0.11.14"
dotenvy = "=0.15.7"
ferromark = "=2.4.0"
http = "=1.5.0"
pin-project = "=1.1.13"
rand = "=0.9.5"
serde_json = "=1.0.154"
tokio = { version = "=1.54.1", features = ["full"] }
tower = { version = "=0.5.3", features = ["util"] }
tower-http = { version = "=0.6.11", features = ["fs", "set-header"] }
tracing = "=0.1.44"
tracing-subscriber = "=0.3.23"
