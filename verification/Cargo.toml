[package]
name = "peppaint"
version = "0.1.0"
edition = "2021"
publish = false

[dependencies]
gl = "*"
glfw = "*"
image = { version = "*", default-features = false, features = ["png", "jpeg"] }
lazy_static = "*"
nalgebra-glm = "*"
perlin_noise = "*"
rand = "*"
tobj = "*"
