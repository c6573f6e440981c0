[package]
name = "neural_galaga"
version = "0.1.0"
edition = "2021"
publish = false

[dependencies]
qrcode = { version = "=0.14.1", default-features = false }
image = { version = "0.25", default-features = false, features = ["png"] }
fontdue = "0.9"
rodio = "0.20"
winit = "0.30"
rand = "0.9"
log = "0.4"
env_logger = "0.11"
