[package]
name = "keyboard_system_status"
version = "0.1.0"
edition = "2021"
publish = false

[dependencies]
critical-section = { version = "=1.2.0", features = ["std"] }
embassy-futures = "=0.1.2"
embassy-sync = "=0.8.0"
heapless = "=0.9.3"
static_cell = "=2.1.1"
trouble-host = "=0.8.0"
