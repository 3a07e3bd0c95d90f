[package]
name = "handy-cli"
version = "0.1.0"
edition = "2021"
publish = false

[dependencies]
anyhow = "1"
axum = "0.7"
base64 = "0.22"
clap = { version = "4", features = ["derive"] }
cpal = "*"
dirs = "*"
flate2 = "1"
futures-util = "0.3"
once_cell = "1"
reqwest = { version = "*", default-features = false, features = ["rustls-tls", "stream"] }
serde = { version = "1", features = ["derive"] }
serde_json = "1"
tar = "*"
tokio = { version = "1", features = ["full"] }
tokio-stream = { version = "*", features = ["sync"] }
tower-http = { version = "*", features = ["cors"] }
tracing = "0.1"
tracing-subscriber = { version = "0.3", features = ["env-filter"] }
transcribe-rs = "*"
vad-rs = "*"
