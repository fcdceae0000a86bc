[package]
name = "pathing"
version = "0.1.0"
edition = "2021"
publish = false

[dependencies]
ahash = "=0.7.8"
bevy = { version = "=0.9.1", default-features = false, features = ["bevy_asset", "bevy_core_pipeline", "bevy_render", "bevy_sprite", "bevy_text", "bevy_ui"] }
futures-lite = "=1.13.0"
iyes_loopless = "=0.9.1"
serde = { version = "=1.0.229", features = ["derive"] }
