[package]
name = "frame_adapter"
version = "0.1.0"
edition = "2021"
publish = false

[dependencies]
ggez = "0.5"
imgui = "0.4"
imgui-gfx-renderer = "0.4"
gfx_core = "0.9"
gfx_device_gl = "0.16"
nalgebra = "0.18"
