[package]
name = "diorama"
version = "0.1.0"
edition = "2021"
publish = false

[dependencies]
bevy = { version = "0.18", default-features = false }
bevy_light_2d = "=0.9.0"
rand = "=0.9.5"
