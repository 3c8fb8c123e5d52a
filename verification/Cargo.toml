[package]
name = "image_store"
version = "0.1.0"
edition = "2021"
publish = false

[dependencies]
base64 = "0.22"
chrono = "0.4"
axum = "0.8"
tokio = { version = "1", features = ["rt-multi-thread", "macros", "fs", "net", "io-util"] }
tower-http = { version = "0.6", features = ["cors"] }
http = "1"
serde = { version = "1", features = ["derive"] }
serde_json = "1"
