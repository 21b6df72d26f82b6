[package]
name = "vec4_lanes"
version = "0.1.0"
edition = "2021"
publish = false

[dependencies]
packed_simd = "*"
