[package]
name = "crius"
version = "0.1.0"
edition = "2021"
publish = false

[dependencies]
ash = "0.31"
serde = { version = "1", features = ["derive"] }
serde_yaml = "0.8"
vk-mem = "0.2"
winapi = { version = "0.3", features = ["libloaderapi", "windef"] }
winit = { version = "0.26", default-features = false, features = ["x11"] }
