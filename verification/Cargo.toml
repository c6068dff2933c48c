[package]
name = "vulkan_bootstrap"
version = "0.1.0"
edition = "2021"
publish = false

[dependencies]
vulkanalia = { version = "0.17", features = ["libloading", "window"] }
winit = "0.27"
