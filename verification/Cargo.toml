[package]
name = "tls_serve"
version = "0.1.0"
edition = "2021"
publish = false

[dependencies]
rustls = "0.21"
rustls-pemfile = "1"
tokio = { version = "1", features = ["rt-multi-thread", "net", "macros"] }
tokio-rustls = "0.24"
hyper = { version = "0.14", features = ["server", "http1", "runtime"] }
log = "0.4"
env_logger = "0.10"
