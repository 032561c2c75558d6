[package]
name = "ui_overlay"
version = "0.1.0"
edition = "2021"
publish = false

[dependencies]
wgpu = "0.6"
wgpu_glyph = "0.10"
winit = { version = "0.23", default-features = false, features = ["x11"] }
