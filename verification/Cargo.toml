[package]
name = "novel_downloader"
version = "0.1.0"
edition = "2021"
publish = false

[dependencies]
anyhow = "=1.0.104"
dialoguer = "=0.11.0"
encoding_rs = "=0.8.44"
futures = "=0.3.34"
indicatif = "=0.17.11"
regex = "=1.13.1"
reqwest = { version = "=0.12.28", default-features = false, features = ["rustls-tls", "cookies"] }
scraper = { version = "=0.20.0", features = ["deterministic"] }
serde = { version = "=1.0.229", features = ["derive"] }
serde_json = "=1.0.154"
tokio = { version = "=1.54.1", features = ["rt-multi-thread", "macros", "time", "sync"] }
tokio-stream = "=0.1.19"
urlencoding = "=2.1.3"
