[package]
name = "vmware-svga-vulkan-impl"
version = "0.1.0"
edition = "2021"
publish = false

[dependencies]
anyhow = "1"
bytemuck = { version = "1", features = ["derive", "extern_crate_alloc"] }
log = "0.4"
parking_lot = "0.12"
pollster = "0.3"
pretty_env_logger = "0.5"
wgpu = "0.16"
