[package]
name = "frameloop"
version = "0.1.0"
edition = "2021"
publish = false

[dependencies]
anyhow = "1"
bytemuck = "1"
env_logger = "0.10"
log = "0.4"
nalgebra = "0.32"
shaderc = "0.8"
vulkano = "0.33"
vulkano-shaders = "0.33"
vulkano-win = "0.33"
winit = { version = "0.28", default-features = false, features = ["x11"] }
