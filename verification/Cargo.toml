[package]
name = "position_manager"
version = "0.1.0"
edition = "2021"
publish = false

[dependencies]
debot-db = "*"
debot-utils = "*"
rust_decimal = "*"
serde = { version = "*", features = ["derive"] }
