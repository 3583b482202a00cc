[package]
name = "skeletal"
version = "0.1.0"
edition = "2021"
publish = false

[dependencies]
glam = "0.20"
gltf = "1.0"
eyre = "0.6"
gl = "0.14"
sdl2 = "0.35"
egui = "0.16"
egui_sdl2_gl = "0.16"
image = "0.24"
tobj = "3.2"
