[package]
name = "render_core"
version = "0.1.0"
edition = "2021"
publish = false

[dependencies]
anyhow = "1"
cgmath = "0.18"
gl = "0.14"
glfw = "*"
gltf = "1"
image = { version = "0.24", default-features = false, features = ["png", "jpeg"] }
