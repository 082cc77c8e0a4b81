[package]
name = "vlr_scraper"
version = "0.1.0"
edition = "2021"
publish = false

[dependencies]
scraper = "*"
ego-tree = "*"
chrono = "*"
reqwest = { version = "*", default-features = false }
futures = "*"
serde = { version = "*", features = ["derive"] }
