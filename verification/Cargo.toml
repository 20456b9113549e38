[package]
name = "thetawave"
version = "0.1.0"
edition = "2021"
publish = false

[dependencies]
bevy = { version = "0.14", default-features = false }
rand = "0.8"
serde = { version = "1", features = ["derive"] }
strum = { version = "0.26", features = ["derive"] }
