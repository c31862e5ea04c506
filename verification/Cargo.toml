[package]
name = "gfx_window_metal"
version = "0.1.0"
edition = "2021"
publish = false

[dependencies]
cocoa = "*"
gfx_core = "*"
gfx_device_metal = "*"
log = "*"
metal = "*"
objc = "*"
winit = "*"
