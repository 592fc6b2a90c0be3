[package]
name = "gameplay_core"
version = "0.1.0"
edition = "2021"
publish = false

[dependencies]
bevy = { version = "=0.17.3", default-features = false, features = ["std", "bevy_window", "bevy_sprite", "bevy_state", "bevy_gizmos", "png"] }
bevy_ecs_tilemap = "=0.17.0"
