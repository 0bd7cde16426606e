[package]
name = "bevy_fusabi"
version = "0.1.0"
edition = "2021"
publish = false

[dependencies]
bevy = { version = "=0.15.3", default-features = false, features = ["bevy_asset"] }
fusabi-frontend = "=0.35.0"
fusabi-vm = { version = "=0.35.0", features = ["serde"] }
serde = { version = "=1.0.229", features = ["derive"] }
thiserror = "=1.0.69"
