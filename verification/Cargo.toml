[package]
name = "iced_renderer"
version = "0.1.0"
edition = "2021"
publish = false

[dependencies]
iced_graphics = { version = "0.12", features = ["geometry", "image"] }
iced_tiny_skia = { version = "0.12", features = ["geometry", "image", "svg"] }
iced_wgpu = { version = "0.12", features = ["geometry", "image", "svg"] }
log = "0.4"
