[package]
name = "runapp"
version = "0.1.0"
edition = "2021"
publish = false

[dependencies]
chrono = "*"
clap = "*"
colored = "*"
dirs = "*"
serde = { version = "*", features = ["derive"] }
serde_json = "*"
