[package]
name = "vapore"
version = "0.1.0"
edition = "2021"
publish = false

[dependencies]
anyhow = "*"
apca = "*"
chrono = "*"
clap = { version = "*", features = ["derive"] }
time = { version = "*", features = ["macros", "parsing", "formatting"] }
tokio = { version = "*", features = ["macros", "rt-multi-thread"] }
yahoo_finance_api = "*"
