[package]
name = "agpu"
version = "0.1.0"
edition = "2021"
publish = false

[dependencies]
serde = { version = "1", features = ["derive"] }
serde_json = "1"
log = "0.4"
bytemuck = { version = "1", features = ["derive"] }
winit = { version = "0.30", default-features = false, features = ["rwh_06", "x11"] }
wgpu = { version = "24", default-features = false, features = ["wgsl"] }
glyphon = "0.8"
