[package]
name = "render_resource"
version = "0.1.0"
edition = "2021"
publish = false

[dependencies]
wgpu = { version = "*", default-features = false }
bevy_utils = "0.10"
