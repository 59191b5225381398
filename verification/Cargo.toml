[package]
name = "babo_engine"
version = "0.1.0"
edition = "2021"
publish = false

[dependencies]
gl = "*"
nalgebra = "*"
freetype-rs = "*"
sdl2 = "*"
