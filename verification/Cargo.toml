[package]
name = "eggo"
version = "0.1.0"
edition = "2021"
publish = false

[dependencies]
bevy = { version = "=0.17.3", default-features = false, features = ["std", "async_executor", "bevy_asset", "bevy_color", "bevy_core_pipeline", "bevy_render", "bevy_image", "bevy_mesh", "bevy_camera", "bevy_shader", "bevy_sprite", "bevy_sprite_render", "bevy_state", "bevy_text", "bevy_ui", "bevy_ui_render", "bevy_window", "bevy_log", "default_font", "png"] }
configparser = "=3.3.0"
rand = "=0.9.5"
ron = "=0.12.3"
serde = { version = "=1.0.229", features = ["derive"] }
