[package]
name = "game_client"
version = "0.1.0"
edition = "2021"
publish = false

[dependencies]
toml = "*"
anyhow = "*"
native-dialog = "*"
pollster = "*"
wgpu = "*"
winit = "*"
