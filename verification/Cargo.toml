[package]
name = "noctura"
version = "0.1.0"
edition = "2021"
publish = false

[dependencies]
smithay = { version = "=0.7.0", default-features = false, features = ["backend_winit", "desktop", "wayland_frontend", "renderer_gl"] }
wayland-server = "=0.31.14"
anyhow = "=1.0.104"
