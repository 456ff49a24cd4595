[package]
name = "nfc_monitor"
version = "0.1.0"
edition = "2021"
publish = false

[dependencies]
hex = "0.4"
pcsc = "2"
tokio = { version = "1", features = ["full"] }
serde = { version = "1", features = ["derive"] }
reqwest = { version = "0.12" }
dirs = { version = "*" }
scopeguard = "1"
lazy_static = "1"
