[package]
name = "celleyor"
version = "0.1.0"
edition = "2021"
publish = false

[dependencies]
gl = "*"
glfw = "*"
egui_glfw = "*"
nalgebra = "*"
