[package]
name = "bevy_framebuffer"
version = "0.3.0"
edition = "2021"
publish = false

[dependencies]
pixels = "0.15"
softbuffer = { version = "0.4", default-features = false, features = ["x11", "x11-dlopen"] }
