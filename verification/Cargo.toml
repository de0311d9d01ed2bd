[package]
name = "fixed_point_acceleration"
version = "0.1.0"
edition = "2021"
publish = false

[dependencies]
ndarray = "0.16"
linfa-linalg = "0.2"
