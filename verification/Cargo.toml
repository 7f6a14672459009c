[package]
name = "authscrape"
version = "0.1.0"
edition = "2021"
publish = false

[dependencies]
rand = "*"
chromiumoxide = "*"
tokio = { version = "*", features = ["rt-multi-thread", "macros", "time"] }
futures = "*"
serde = { version = "*", features = ["derive"] }
actix-web = "*"
actix-files = "*"
env_logger = "*"
