[package]
name = "infwinity"
version = "0.1.0"
edition = "2021"
publish = false

[dependencies]
anyhow = "=1.0.104"
log = "=0.4.35"
simple_logger = "=5.2.0"
smithay = { version = "*", default-features = false, features = ["backend_winit", "desktop", "wayland_frontend", "renderer_gl"] }
