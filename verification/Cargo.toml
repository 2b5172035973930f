[package]
name = "mesh_normals"
version = "0.1.0"
edition = "2021"
publish = false

[dependencies]
obj-rs = "=0.7.4"
pollster = "=0.3.0"
rustc_apfloat = "0.2"
softfloat = "=1.0.0"
wgpu = "=0.15.1"
winit = "=0.28.7"
