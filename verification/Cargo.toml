[package]
name = "bank_scraper"
version = "0.1.0"
edition = "2021"
publish = false

[dependencies]
again = "=0.1.2"
anyhow = "=1.0.104"
askama = "=0.12.1"
axum = "=0.7.9"
chrono = { version = "=0.4.45", features = ["serde"] }
clap = { version = "=4.6.7", features = ["derive"] }
color-eyre = "=0.6.5"
http = "=1.5.0"
hyper = "=1.12.0"
reqwest = { version = "=0.12.28", default-features = false, features = ["json", "rustls-tls"] }
rust_decimal = "=1.43.0"
secrecy = "=0.8.0"
serde = { version = "=1.0.229", features = ["derive"] }
serde_json = "=1.0.154"
serde_urlencoded = "=0.7.1"
tempfile = "=3.27.0"
tokio = { version = "=1.54.1", features = ["rt-multi-thread", "macros", "net", "fs"] }
tokio-util = "=0.7.20"
toml = "=0.8.23"
tracing = "=0.1.44"
tzfile = "=0.1.3"
urlencoding = "=2.1.3"
uuid = { version = "=1.29.0", features = ["serde"] }
