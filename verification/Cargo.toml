[package]
name = "character_controller"
version = "0.1.0"
edition = "2021"
publish = false

[dependencies]
bevy = { version = "0.9", default-features = false, features = ["animation", "bevy_asset", "bevy_scene", "bevy_winit", "render", "png", "x11"] }
bevy_rapier3d = "0.20"
bevy_editor_pls = "0.2"
