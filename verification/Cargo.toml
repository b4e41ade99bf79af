[package]
name = "glframe"
version = "0.1.0"
edition = "2021"
publish = false

[dependencies]
gl = "=0.14.0"
image = "=0.23.14"
imgui-glfw-rs = { version = "=0.13.1", features = ["opengl"] }
nalgebra-glm = "=0.21.0"
num = "=0.4.3"
