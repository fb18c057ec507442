[package]
name = "scene_viewer"
version = "0.1.0"
edition = "2021"
publish = false

[dependencies]
anyhow = "1"
egui = "0.31"
egui_glow = "0.31"
egui-winit = { version = "0.31", default-features = false }
env_logger = "0.11"
glow = "0.16"
glutin = "0.32"
glutin-winit = "0.5"
log = "0.4"
serde = { version = "1", features = ["derive"] }
toml = "0.8"
winit = "0.30"
