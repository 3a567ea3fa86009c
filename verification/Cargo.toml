[package]
name = "sprite_batch"
version = "0.1.0"
edition = "2021"
publish = false

[dependencies]
defaults = "*"
glium = "0.33"
image = "0.24"
rand = "0.8"
winit = "0.28"
