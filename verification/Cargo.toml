[package]
name = "bridge_bootstrap"
version = "0.1.0"
edition = "2021"
publish = false

[dependencies]
axum-server = { version = "*", features = ["tls-rustls"] }
camino = "1"
chrono = { version = "0.4", default-features = false, features = ["clock"] }
log = "0.4"
serde_yml = "*"
tokio = { version = "1", features = ["sync"] }
