[package]
name = "bitmap_text"
version = "0.1.0"
edition = "2021"
publish = false

[dependencies]
image = { version = "0.24", default-features = false, features = ["png"] }
pollster = { version = "0.3", features = ["macro"] }
rand = "0.8"
wgpu = "0.16"
winit = "0.28"
