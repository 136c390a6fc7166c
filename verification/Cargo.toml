[package]
name = "snappy_sc"
version = "0.1.0"
edition = "2021"
publish = false

[dependencies]
image = { version = "0.24", default-features = false, features = ["png", "jpeg"] }
webp = { version = "0.3", default-features = false }
winapi = { version = "0.3", features = ["winuser", "wingdi", "windef", "minwindef"] }
