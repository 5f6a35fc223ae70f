[package]
name = "modio"
version = "0.1.0"
edition = "2021"
publish = false

[dependencies]
bytes = "1"
futures = "0.3"
mime = "0.3"
reqwest = { version = "0.12", default-features = false, features = ["multipart", "rustls-tls", "stream"] }
serde = { version = "1", features = ["derive"] }
serde_json = "1"
tokio = { version = "1", features = ["fs", "rt"] }
tokio-util = { version = "0.7", features = ["codec"] }
url = "2"
