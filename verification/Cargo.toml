[package]
name = "vpn_manager"
version = "0.1.0"
edition = "2021"
publish = false

[dependencies]
anyhow = "1"
once_cell = "1"
parking_lot = "0.12"
serde = { version = "1", features = ["derive"] }
serde_json = "1"
specta = "1"
tokio = { version = "1", features = ["io-util", "macros", "process", "rt", "time"] }
tracing = "0.1"
