[package]
name = "tx_handler"
version = "0.1.0"
edition = "2021"
publish = false

[dependencies]
ethers = { version = "2.0", default-features = false }
serde = { version = "1", features = ["derive"] }
tracing = "0.1"
