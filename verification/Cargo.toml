[package]
name = "vkboot"
version = "0.1.0"
edition = "2021"
publish = false

[dependencies]
anyhow = "1"
log = "0.4"
thiserror = "1"
vulkanalia = { version = "0.22", features = ["libloading", "window"] }
winit = { version = "0.28", default-features = false, features = ["x11"] }
