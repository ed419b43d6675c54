[package]
name = "obscure_resurrection"
version = "0.1.0"
edition = "2021"
publish = false

[dependencies]
bevy = { version = "0.7", default-features = false, features = ["render", "bevy_winit", "png", "x11"] }
heron = { version = "3", features = ["2d"] }
bevy_ecs_ldtk = "0.3"
bevy_kira_audio = { version = "0.9", features = ["wav"] }
bevy_asset_loader = "0.11"
bevy_embedded_assets = "0.3"
big-brain = "0.11"
