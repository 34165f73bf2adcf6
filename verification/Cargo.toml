[package]
name = "game_basics"
version = "0.1.0"
edition = "2021"
publish = false

[dependencies]
rand = "0.9"
bevy = { version = "0.16", default-features = false, features = ["std", "bevy_render", "bevy_window", "bevy_log"] }
