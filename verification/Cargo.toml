[package]
name = "boxes"
version = "0.1.0"
edition = "2021"
publish = false

[dependencies]
nphysics2d = "=0.24.0"
rand = "=0.10.3"
sdl2 = { version = "=0.38.0", features = ["image"] }
