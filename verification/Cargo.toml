[package]
name = "imgui_glfw_rs"
version = "0.1.0"
edition = "2021"
publish = false

[dependencies]
glfw = "*"
imgui = "*"
imgui-opengl-renderer = "*"
