[package]
name = "blueprint"
version = "0.1.0"
edition = "2021"
publish = false

[dependencies]
bytemuck = { version = "=1.25.2", features = ["derive"] }
wgpu = "=23.0.1"
winit = "=0.30.13"
pollster = "=0.3.0"
image = { version = "=0.25.10", default-features = false, features = ["png", "jpeg"] }
ab_glyph = "=0.2.32"
cosmic-text = "0.14"
