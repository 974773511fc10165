[package]
name = "mathilda"
version = "0.1.0"
edition = "2021"
publish = false

[dependencies]
rand = "=0.7.3"
chrono = "=0.4.45"
wgpu = "=0.6.2"
winit = "=0.22.2"
glam = "=0.9.5"
zerocopy = "=0.3.2"
anyhow = "=1.0.104"
log = "=0.4.34"
pretty_env_logger = "=0.4.0"
async-std = "=1.13.2"
image = { version = "0.23", default-features = false, features = ["png"] }
