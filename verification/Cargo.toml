[package]
name = "gpu_ray_tracing"
version = "0.1.0"
edition = "2021"
publish = false

[dependencies]
bevy = { version = "0.15", default-features = false, features = ["bevy_asset", "bevy_color", "bevy_core_pipeline", "bevy_render", "bevy_sprite", "bevy_window", "bevy_winit", "multi_threaded", "x11"] }
bytemuck = { version = "1", features = ["derive"] }
rand = "0.8"
