[package]
name = "corsola"
version = "0.1.0"
edition = "2021"
publish = false

[dependencies]
anyhow = "1"
glyphon = "0.3"
pixels = "0.13"
tiny-skia = "0.11"
wgpu = "0.16"
winit = "0.28"
