[package]
name = "expo_server_sdk"
version = "0.2.0"
edition = "2021"
publish = false

[dependencies]
serde_json = "1"
flate2 = "1"
serde = { version = "1", features = ["derive"] }
thiserror = "1"
reqwest = { version = "0.11", default-features = false, features = ["json", "gzip", "rustls-tls"] }
tokio = { version = "1", features = ["rt", "macros", "time"] }
structopt = "0.3"
