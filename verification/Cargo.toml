[package]
name = "fox_field"
version = "0.1.0"
edition = "2021"
publish = false

[dependencies]
bevy = { version = "0.17", default-features = false, features = ["std", "bevy_asset", "bevy_color", "bevy_core_pipeline", "bevy_pbr", "bevy_render", "bevy_scene", "bevy_gltf", "bevy_animation", "bevy_text", "bevy_ui", "bevy_window"] }
rand = "0.9"
serde = { version = "1", features = ["derive"] }
serde_json = "1"
