[package]
name = "bevy_pickleback"
version = "0.1.0"
edition = "2021"
publish = false

[dependencies]
pickleback = "*"
bevy = { version = "*", default-features = false }
