[package]
name = "vkinit"
version = "0.1.0"
edition = "2021"
publish = false

[dependencies]
anyhow = "=1.0.104"
log = "=0.4.34"
pretty_env_logger = "=0.5.0"
thiserror = "=1.0.69"
vulkanalia = { version = "=0.23.0", features = ["libloading", "window"] }
winit = { version = "0.29", default-features = false, features = ["rwh_06", "x11"] }
