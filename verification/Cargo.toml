[package]
name = "gl_quad"
version = "0.1.0"
edition = "2021"
publish = false

[dependencies]
glutin = "0.31"
glutin-winit = "0.4"
raw-window-handle = "0.5"
winit = { version = "0.29", features = ["rwh_05"] }
