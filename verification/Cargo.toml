[package]
name = "comfy"
version = "0.1.0"
edition = "2021"
publish = false

[dependencies]
console_error_panic_hook = "=0.1.7"
console_log = "=1.1.0"
egui = { version = "=0.23.0", default-features = false }
log = "=0.4.34"
