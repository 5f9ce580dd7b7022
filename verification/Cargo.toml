[package]
name = "shadow_chaser"
version = "0.1.0"
edition = "2021"
publish = false

[dependencies]
bytemuck = { version = "1", features = ["derive"] }
crossbeam = "0.8"
log = "0.4"
pollster = "0.3"
rapier2d = "=0.22.0"
simple-logging = "2"
wgpu = "=0.20.1"
winit = "=0.30.13"
