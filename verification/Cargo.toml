[package]
name = "config_manager"
version = "0.1.0"
edition = "2021"
publish = false

[dependencies]
dirs-next = "*"
notify = "*"
serde = { version = "*", features = ["derive"] }
serde_json = "*"
