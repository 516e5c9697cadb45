[package]
name = "beby_rogue_like"
version = "0.1.0"
edition = "2021"
publish = false

[dependencies]
rand = "=0.10.3"
bevy = { version = "=0.18.1", default-features = false, features = ["bevy_state", "bevy_sprite", "bevy_ui", "bevy_text"] }
