[package]
name = "planet_controller"
version = "0.1.0"
edition = "2021"
publish = false

[dependencies]
bevy = { version = "0.16", default-features = false, features = ["std", "bevy_asset", "bevy_render", "bevy_pbr", "bevy_gltf", "bevy_window", "bevy_state", "bevy_log", "bevy_core_pipeline", "bevy_scene"] }
avian3d = "0.3"
serde = { version = "1", features = ["derive"] }
serde_json = "1"
