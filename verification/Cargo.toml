[package]
name = "platformer"
version = "0.1.0"
edition = "2021"
publish = false

[dependencies]
bevy = { version = "0.7", default-features = false, features = ["render", "png"] }
bevy-inspector-egui = { version = "0.11", default-features = false }
ldtk_rust = "*"
