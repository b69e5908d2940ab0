[package]
name = "render_core"
version = "0.1.0"
edition = "2021"
publish = false

[dependencies]
glium = "0.34"
winit = "0.29"
image = "0.24"
