[package]
name = "ray_marcher"
version = "0.1.0"
edition = "2021"
publish = false

[dependencies]
bytemuck = { version = "1", features = ["derive"] }
env_logger = "0.9"
pollster = "0.2"
renderdoc = "0.10"
tokio = { version = "1", features = ["macros", "rt-multi-thread"] }
wgpu = "0.13"
winit = "0.27"
