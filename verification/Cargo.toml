[package]
name = "sprite_engine"
version = "0.1.0"
edition = "2021"
publish = false

[dependencies]
anyhow = "=1.0.104"
bytemuck = { version = "=1.25.2", features = ["derive"] }
cgmath = "=0.18.0"
dotenv = "=0.15.0"
env_logger = "=0.10.2"
image = "=0.24.9"
roxmltree = "=0.18.1"
serde_json = "=1.0.151"
wgpu = "=0.17.2"
wgpu_glyph = "=0.21.0"
winit = { version = "=0.28.7", default-features = false, features = ["x11"] }
