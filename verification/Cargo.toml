[package]
name = "grafton_server"
version = "0.1.0"
edition = "2021"
publish = false

[dependencies]
url = "=2.5.8"
rustls-pemfile = "=2.2.0"
rustls-pki-types = "=1.15.1"
tokio-rustls = { version = "=0.26.6", default-features = false, features = ["ring", "logging", "tls12"] }
axum = "*"
tokio = { version = "*", features = ["full"] }
hyper = { version = "*", features = ["full"] }
hyper-util = { version = "*", features = ["full"] }
tower = { version = "*", features = ["util"] }
tracing = "*"
tracing-appender = "*"
tracing-subscriber = "*"

[dev-dependencies]
rcgen = { version = "0.13", default-features = false, features = ["crypto", "pem", "ring"] }
