[package]
name = "webgpu_game_engine"
version = "0.1.0"
edition = "2021"
publish = false

[dependencies]
bytemuck = "=1.25.2"
env_logger = { version = "=0.11.11", default-features = false }
glm = "=0.2.3"
lazy_static = "=1.5.1"
obj = "0.10"
pollster = "=0.3.0"
wgpu = { version = "=0.19.4", default-features = false, features = ["wgsl"] }
