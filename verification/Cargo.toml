[package]
name = "bearer_auth"
version = "0.1.0"
edition = "2021"
publish = false

[dependencies]
axum = "0.7"
axum-server = "0.7"
serde = { version = "1", features = ["derive"] }
serde_json = "1"
tokio = { version = "1", features = ["full"] }
tower-http = { version = "0.5", features = ["trace"] }
tracing = "0.1"
tracing-subscriber = { version = "0.3", features = ["env-filter"] }
