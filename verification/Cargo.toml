[package]
name = "global_clock"
version = "0.1.0"
edition = "2021"
publish = false

[dependencies]
anyhow = "1"
bytemuck = { version = "1", features = ["derive"] }
chrono = "0.4"
env_logger = "0.11"
glam = "0.27"
image = { version = "0.24", default-features = false, features = ["jpeg"] }
tiny-skia = "0.11"
