[package]
name = "mirror_shooter"
version = "0.1.0"
edition = "2021"
publish = false

[dependencies]
bevy = { version = "0.10", default-features = false, features = ["bevy_asset", "bevy_core_pipeline", "bevy_render", "bevy_sprite", "bevy_text", "bevy_ui", "png"] }
bevy_rapier2d = "0.21"
bevy_pixel_camera = "0.4"
rand = "0.8"
