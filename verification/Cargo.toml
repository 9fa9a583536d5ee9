[package]
name = "pulsar"
version = "0.1.0"
edition = "2021"
publish = false

[dependencies]
ash = "0.38"
ash-window = "0.13"
cursor-icon = "1"
env_logger = "0.11"
glam = "*"
image = { version = "0.25", default-features = false, features = ["png"] }
log = "0.4"
raw-window-handle = "0.6"
winit = { version = "0.30", default-features = false, features = ["rwh_06", "x11"] }
