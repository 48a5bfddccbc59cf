[package]
name = "frame_core"
version = "0.1.0"
edition = "2021"
publish = false

[dependencies]
nalgebra = "0.32"
vulkano = "0.34"
vulkano-shaders = "0.34"
winit = { version = "0.29", features = ["rwh_05"] }
