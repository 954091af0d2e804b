[package]
name = "ssl_checker"
version = "0.1.0"
edition = "2021"
publish = false

[dependencies]
url = "*"
x509-parser = { version = "*", features = ["verify"] }
reqwest = { version = "*", default-features = false, features = ["rustls-tls", "http2"] }
tokio = { version = "*", features = ["rt-multi-thread", "macros", "time"] }
futures = "*"
clap = { version = "*", features = ["derive"] }
serde = { version = "*", features = ["derive"] }
serde_json = "*"
toml = "*"
chrono = "*"
tracing = "*"
tracing-subscriber = { version = "*", features = ["env-filter"] }
