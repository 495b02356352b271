[package]
name = "herding"
version = "0.1.0"
edition = "2021"
publish = false

[dependencies]
rand = "=0.9.5"
bevy = { version = "=0.18.1", default-features = false, features = ["std", "bevy_state", "keyboard"] }
