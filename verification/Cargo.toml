[package]
name = "fetch_github_hosts"
version = "4.0.0"
edition = "2021"
publish = false

[dependencies]
chrono = "0.4"
clap = { version = "4", features = ["derive"] }
dirs = "5"
reqwest = { version = "0.12", default-features = false, features = ["rustls-tls"] }
serde = { version = "1", features = ["derive"] }
serde_json = "1"
serde_yaml = "0.9"
sys-locale = "0.3"
tokio = { version = "1", features = ["rt-multi-thread", "macros", "time", "net", "io-util", "signal", "sync"] }
