[package]
name = "asterix"
version = "0.1.0"
edition = "2021"
publish = false

[dependencies]
anyhow = "*"
chrono = { version = "*", default-features = false, features = ["clock"] }
parking_lot = "*"
reqwest = { version = "*", default-features = false, features = ["cookies"] }
scraper = "*"
tokio = { version = "*", features = ["sync", "rt-multi-thread", "time"] }
url = "*"
