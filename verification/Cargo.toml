[package]
name = "obj_viewer"
version = "0.1.0"
edition = "2021"
publish = false

[dependencies]
cgmath = "*"
glium = "*"
glutin = "*"
tobj = "*"
winit = "*"
