[package]
name = "mtls_agent"
version = "0.1.0"
edition = "2021"
publish = false

[dependencies]
anyhow = "1"
axum = "0.6"
futures-util = "0.3"
http = "0.2"
hyper = { version = "0.14", features = ["full"] }
libflate = "2"
log = "0.4"
reqwest = { version = "0.11", default-features = false, features = ["rustls-tls", "stream"] }
rustls-pemfile = "1"
serde_json = "1"
structured-logger = "1"
tokio = { version = "1", features = ["full"] }
tokio-rustls = "0.24"
tower = "0.4"
tower-http = { version = "0.4", features = ["catch-panic", "compression-gzip", "compression-zstd"] }
url = "2"
zstd = "0.13"
