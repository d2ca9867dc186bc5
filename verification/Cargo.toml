[package]
name = "moscope"
version = "0.1.0"
edition = "2021"
publish = false

[dependencies]
regex = "1"
clap = { version = "4", features = ["derive"] }
colored = "*"
colorize = "*"
serde = { version = "1", features = ["derive"] }
serde_json = "1"
