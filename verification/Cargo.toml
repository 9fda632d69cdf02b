[package]
name = "shader_learning"
version = "0.1.0"
edition = "2021"
publish = false

[dependencies]
bytemuck = "1"
clock_ticks = "*"
env_logger = "0.11"
flume = "0.11"
log = "0.4"
pollster = "*"
wgpu = { version = "23", default-features = false, features = ["wgsl"] }
xorshift = "*"
