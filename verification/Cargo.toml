[package]
name = "openchime"
version = "0.1.0"
edition = "2021"
publish = false

[dependencies]
anyhow = "1"
chrono = "0.4"
chrono-tz = "0.8"
dirs = "5"
env_logger = "0.10"
icalendar = "0.16"
log = "0.4"
regex = "1"
reqwest = { version = "0.11", default-features = false, features = ["rustls-tls"] }
rodio = "0.17"
serde = { version = "1", features = ["derive"] }
sqlx = { version = "0.7", default-features = false, features = ["runtime-tokio", "sqlite", "chrono", "macros"] }
thiserror = "1"
tokio = { version = "1", features = ["full"] }
tokio-util = "0.7"
url = "2"
uuid = { version = "1", features = ["v4"] }
