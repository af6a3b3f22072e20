[package]
name = "barter_execution"
version = "0.1.0"
edition = "2021"
publish = false

[dependencies]
chrono = "*"
uuid = "*"
serde = { version = "*", features = ["derive"] }
futures = "*"
