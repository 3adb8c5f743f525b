[package]
name = "voxel_core"
version = "0.1.0"
edition = "2021"
publish = false

[dependencies]
noise = "=0.9.0"
rayon = "=1.12.0"
