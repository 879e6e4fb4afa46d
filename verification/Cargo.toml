[package]
name = "vulkan_data"
version = "0.1.0"
edition = "2021"
publish = false

[dependencies]
gfx_core = "=0.4.0"
vk-sys = "=0.7.0"
log = "=0.4.34"
