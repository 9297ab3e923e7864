[package]
name = "wgpu_raycaster"
version = "0.1.0"
edition = "2021"
publish = false

[dependencies]
bytemuck = { version = "1", features = ["derive"] }
cgmath = "0.18"
gilrs = "0.11"
gltf = "1"
instant = "0.1"
nifti = { version = "*", features = ["ndarray_volumes"] }
pollster = "0.4"
wgpu = "24"
winit = "0.30"
