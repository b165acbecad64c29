[package]
name = "dual_server"
version = "0.1.0"
edition = "2021"
publish = false

[dependencies]
ferris-says = "0.2"
futures = "0.3"
hyper = { version = "0.14", features = ["server", "http1", "http2", "tcp", "stream"] }
log = "0.4"
pretty_env_logger = "0.4"
rustls = "0.19"
serde = { version = "1", features = ["derive"] }
tokio = { version = "1", features = ["rt", "rt-multi-thread", "net", "time"] }
tokio-rustls = "0.22"
toml = "0.5"
