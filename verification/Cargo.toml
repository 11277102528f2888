[package]
name = "idle_scene"
version = "0.1.0"
edition = "2021"
publish = false

[dependencies]
console_error_panic_hook = "0.1"
web-sys = { version = "0.3", features = ["Window"] }
