[package]
name = "xr_hotas"
version = "0.1.0"
edition = "2021"
publish = false

[dependencies]
anyhow = "=1.0.104"
clap = { version = "=4.6.7", features = ["derive"] }
env_logger = "=0.11.11"
glam = { version = "=0.29.3", features = ["mint"] }
log = "=0.4.35"
mint = "=0.5.9"
openxr = { version = "0.22", features = ["linked", "mint"] }
signal-hook = "=0.3.18"
