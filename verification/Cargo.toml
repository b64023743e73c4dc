[package]
name = "yawcli"
version = "0.2.3"
edition = "2021"
publish = false

[dependencies]
chrono = "0.4"
clap = "2"
reqwest = { version = "0.11", features = ["blocking", "json"] }
scraper = "*"
serde = { version = "1", features = ["derive"] }
winapi-util = "0.1"
