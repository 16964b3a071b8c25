[package]
name = "comgen"
version = "0.1.0"
edition = "2021"
publish = false

[dependencies]
serde_json = "*"
serde = { version = "*", features = ["derive"] }
serde_yaml = "*"
clap = { version = "*", features = ["derive"] }
reqwest = { version = "*", default-features = false, features = ["blocking", "json", "rustls-tls"] }
indicatif = "*"
thiserror = "*"
tracing = "*"
tracing-appender = "*"
tracing-subscriber = "*"
