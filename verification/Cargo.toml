[package]
name = "carveout"
version = "0.1.0"
edition = "2021"
publish = false

[dependencies]
chrono = "=0.4.45"
dirs = "=4.0.0"
egui = "=0.20.1"
egui-wgpu = { version = "=0.20.0", features = ["winit"] }
egui-winit = { version = "=0.20.1", default-features = false }
egui_file = "0.5"
enterpolation = "=0.2.1"
flexbuffers = "=2.0.0"
instant = "=0.1.13"
palette = "=0.6.1"
pollster = "=0.2.5"
serde = { version = "=1.0.229", features = ["derive"] }
tracing = "=0.1.44"
tracing-subscriber = "=0.3.23"
wgpu = "=0.14.2"
winit = "=0.27.5"
