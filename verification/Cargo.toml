[package]
name = "gpu_cycle"
version = "0.1.0"
edition = "2021"
publish = false

[dependencies]
wgpu = "0.13"
winit = { version = "0.27", default-features = false, features = ["x11"] }
bytemuck = { version = "1", features = ["derive"] }
tokio = { version = "1", features = ["macros", "rt-multi-thread"] }
env_logger = "0.9"
log = "0.4"
cfg-if = "1"
console_log = "0.2"
console_error_panic_hook = "0.1"
