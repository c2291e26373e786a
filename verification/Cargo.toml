[package]
name = "bunkr_spider"
version = "0.1.0"
edition = "2021"
publish = false

[dependencies]
scraper = "*"
tokio = { version = "*", features = ["rt-multi-thread", "macros", "fs", "io-util", "time", "sync"] }
reqwest = { version = "*", default-features = false, features = ["rustls-tls", "stream"] }
futures = "*"
fake_user_agent = "*"
