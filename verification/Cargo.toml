[package]
name = "in_scraper"
version = "0.1.0"
edition = "2021"
publish = false

[dependencies]
scraper = "*"
urlencoding = "*"
serde = { version = "*", features = ["derive"] }
serde_json = "*"
reqwest = { version = "*", default-features = false }
tokio = { version = "*", features = ["rt-multi-thread", "macros", "time", "sync"] }
clap = { version = "*", features = ["derive"] }
futures = "*"
chrono = "*"
tabled = "*"
