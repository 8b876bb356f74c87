[package]
name = "print_helper"
version = "0.1.0"
edition = "2021"
publish = false

[dependencies]
rcgen = "*"
uuid = { version = "*", features = ["v4"] }
chrono = "*"
dirs = "*"
axum = { version = "*", features = ["multipart"] }
axum-server = { version = "*", features = ["tls-rustls"] }
tokio = { version = "*", features = ["full"] }
tower-http = { version = "*", features = ["cors"] }
serde = { version = "*", features = ["derive"] }
serde_json = "*"
reqwest = { version = "*", default-features = false, features = ["rustls-tls"] }
tempfile = "*"
image = { version = "*", default-features = false, features = ["png"] }
tracing = "*"
tracing-subscriber = "*"
once_cell = "*"
rustls = "*"
