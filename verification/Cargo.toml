[package]
name = "game_plugin"
version = "0.1.0"
edition = "2021"
publish = false

[dependencies]
chrono = "*"
rand = "=0.8.5"
serde = { version = "*", features = ["derive"] }
serde_yaml = "*"
bevy = { version = "=0.5.0", default-features = false }
