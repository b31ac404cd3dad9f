[package]
name = "webapps"
version = "0.1.0"
edition = "2021"
publish = false

[dependencies]
anyhow = "=1.0.104"
image = "=0.24.9"
rand = "=0.8.8"
reqwest = { version = "=0.11.27", features = ["blocking"] }
scraper = { version = "=0.19.1", features = ["deterministic"] }
tokio = { version = "=1.54.1", features = ["fs"] }
tracing = "=0.1.44"
url = "=2.5.8"
usvg = "=0.41.0"
walkdir = "=2.5.0"
