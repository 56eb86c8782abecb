[package]
name = "windowing"
version = "0.1.0"
edition = "2021"
publish = false

[dependencies]
winit = { version = "0.30", default-features = false, features = ["rwh_06", "x11"] }
glutin = { version = "0.32", default-features = false, features = ["egl", "glx", "x11", "wgl"] }
glutin-winit = { version = "0.5", default-features = false, features = ["egl", "glx", "x11", "wgl"] }
glow = "*"
log = "0.4"
raw-window-handle = "0.6"
