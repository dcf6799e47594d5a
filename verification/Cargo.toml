[package]
name = "rso_sample"
version = "0.1.0"
edition = "2021"
publish = false

[dependencies]
ureq = "2"
base64 = "0.22"
axum = "0.7"
axum-server = { version = "0.7", features = ["tls-rustls"] }
tokio = { version = "1", features = ["macros", "rt-multi-thread"] }
clap = { version = "4", features = ["derive"] }
log = "0.4"
env_logger = "0.11"
serde = { version = "1", features = ["derive"] }
serde_derive = "1"
serde_json = "1"
config = "0.14"

[dev-dependencies]
httpmock = "0.7"
