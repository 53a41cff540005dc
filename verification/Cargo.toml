[package]
name = "footballcaster2"
version = "0.1.0"
edition = "2021"
publish = false

[dependencies]
serde = { version = "=1.0.229", features = ["derive"] }
serde_json = "=1.0.151"
uuid = { version = "=1.18.1", features = ["v5"] }
spacetimedb = "=1.12.0"
