[package]
name = "gl_clock"
version = "0.1.0"
edition = "2021"
publish = false

[dependencies]
anyhow = "1"
bytemuck = { version = "1", features = ["derive"] }
chrono = "0.4"
gl = "0.14"
glam = "*"
image = { version = "*", default-features = false, features = ["png"] }
sdl2 = "*"
