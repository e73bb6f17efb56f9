[package]
name = "eww"
version = "0.1.0"
edition = "2021"
publish = false

[dependencies]
bytemuck = { version = "1", features = ["derive"] }
copypasta = "0.7"
egui = "0.13"
tracing = "0.1"
webbrowser = "0.5"
wgpu = "0.9"
winit = "0.25"
