[package]
name = "voxel_sampler"
version = "0.1.0"
edition = "2021"
publish = false

[dependencies]
rand = "0.8"
rayon = "1"
numpy = "0.21"
pyo3 = "0.21"
