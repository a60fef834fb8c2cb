[package]
name = "breakout"
version = "0.1.0"
edition = "2021"
publish = false

[dependencies]
rand = "=0.10.3"
bevy = { version = "=0.19.1", default-features = false, features = ["std", "bevy_asset", "bevy_sprite", "bevy_window", "bevy_camera", "bevy_color"] }
avian2d = { version = ">=0.6, <0.8", default-features = false, features = ["2d", "parry-f32"] }
