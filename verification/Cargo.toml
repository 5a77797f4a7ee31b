[package]
name = "texture_readback"
version = "0.1.0"
edition = "2021"
publish = false

[dependencies]
bevy_asset = "=0.6.0"
bevy_ecs = "=0.6.1"
bevy_reflect = "=0.6.0"
darling = "=0.13.4"
