[package]
name = "netcheck"
version = "0.1.0"
edition = "2021"
publish = false

[dependencies]
chrono = "=0.4.45"
reqwest = { version = "=0.12.28", default-features = false, features = ["rustls-tls"] }
serde = { version = "=1.0.229", features = ["derive"] }
sysinfo = "=0.39.6"
tokio = { version = "1", features = ["time", "net", "rt", "macros"] }
