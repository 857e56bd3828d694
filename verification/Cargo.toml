[package]
name = "racing_engine"
version = "0.1.0"
edition = "2021"
publish = false

[dependencies]
bytemuck = { version = "1", features = ["derive"] }
anyhow = "1"
env_logger = { version = "0.11", default-features = false }
glam = { version = "0.29", features = ["bytemuck"] }
rand = "0.8"
winit = { version = "0.30", default-features = false, features = ["x11", "rwh_06"] }
rapier3d = "0.19"
egui = { version = "0.31", default-features = false }
