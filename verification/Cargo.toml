[package]
name = "opencl_mm"
version = "0.1.0"
edition = "2021"
publish = false

[dependencies]
rand = "0.8"
opencl3 = "0.9"
