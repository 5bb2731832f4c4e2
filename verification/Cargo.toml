[package]
name = "planit"
version = "0.1.0"
edition = "2021"
publish = false

[dependencies]
serde = { version = "=1.0.229", features = ["derive"] }
serde_json = "=1.0.154"
reqwest = { version = "0.12", features = ["json"] }
chrono = "0.4"
keyring = "2"
