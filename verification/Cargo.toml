[package]
name = "anime_downloader"
version = "0.1.0"
edition = "2021"
publish = false

[dependencies]
scraper = "=0.27.0"
serde_json = "=1.0.151"
reqwest = { version = "=0.13.5", default-features = false, features = ["cookies", "gzip", "rustls", "query", "form"] }
reqwest-middleware = { version = "=0.5.2", features = ["query", "form"] }
reqwest-retry = "=0.9.1"
reqwest_cookie_store = "=0.10.0"
cookie_store = "=0.22.1"
tokio = { version = "=1.53.2", features = ["rt-multi-thread", "macros", "signal", "time"] }
aria2-rs = "=0.3.3"
async-trait = "=0.1.92"
clearscreen = "=5.0.0"
