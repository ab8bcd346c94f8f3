[package]
name = "clearframe"
version = "0.1.0"
edition = "2021"
publish = false

[dependencies]
wgpu = "0.16"
winit = "0.28"
log = "0.4"
console_log = "1"
console_error_panic_hook = "0.1"
