[package]
name = "ahoy_jump"
version = "0.1.0"
edition = "2021"
publish = false

[dependencies]
serde = { version = "=1.0.229", features = ["derive"] }
bevy_math = { version = "=0.17.3", features = ["serialize", "bevy_reflect"] }
bevy_reflect = "=0.17.3"
