[package]
name = "weirctrl"
version = "0.1.0"
edition = "2021"
publish = false

[dependencies]
rcgen = { version = "0.14", default-features = false, features = ["crypto", "pem", "ring", "x509-parser"] }
rustls = { version = "0.23", default-features = false, features = ["ring", "std", "logging", "tls12"] }
rustls-pki-types = { version = "1", features = ["std"] }
time = "0.3"
anyhow = "1"
tokio = { version = "1", features = ["full"] }
tokio-rustls = { version = "0.26", default-features = false, features = ["ring", "logging", "tls12"] }
tokio-util = { version = "0.7", features = ["rt"] }
axum = "0.8"
hyper = { version = "1", features = ["http1", "http2", "server"] }
hyper-util = { version = "0.1", features = ["tokio", "server-auto", "service", "http1", "http2"] }
tower-service = "0.3"
tracing = "0.1"
tracing-subscriber = "0.3"
clap = { version = "4", features = ["derive", "env"] }
serde = { version = "1", features = ["derive"] }
utoipa = "5"
utoipa-axum = "0.2"
utoipa-scalar = { version = "0.3", features = ["axum"] }
