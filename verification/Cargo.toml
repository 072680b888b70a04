[package]
name = "urll"
version = "0.1.0"
edition = "2021"
publish = false

[dependencies]
anyhow = "1"
arboard = { version = "3", default-features = false }
clap = { version = "4", features = ["derive"] }
env_logger = "0.11"
open = "5"
ratatui = "0.29"
reqwest = "0.12"
scraper = "*"
tokio = { version = "1", features = ["macros", "rt-multi-thread", "sync"] }
url = "2"
