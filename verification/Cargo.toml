[package]
name = "mam_authorize"
version = "0.1.0"
edition = "2021"
publish = false

[dependencies]
url = "2"
subtle = "2"
axum = "0.8"
serde = { version = "1", features = ["derive"] }
tokio = { version = "1", features = ["full"] }
tracing = "0.1"
tracing-subscriber = { version = "0.3", features = ["env-filter"] }
clap = { version = "4", features = ["derive", "env"] }
anyhow = "1"
tower-http = { version = "0.6", features = ["cors", "trace"] }
