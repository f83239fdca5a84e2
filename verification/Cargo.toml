[package]
name = "bevy_rl"
version = "0.1.0"
edition = "2021"
publish = false

[dependencies]
gotham = "0.7"
hyper = "0.14"
mime = "0.3"
image = { version = "0.25", default-features = false, features = ["png"] }
serde = { version = "1", features = ["derive"] }
serde_json = "1"
