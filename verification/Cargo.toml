[package]
name = "meshgen"
version = "0.1.0"
edition = "2021"
publish = false

[dependencies]
rustc_apfloat = "=0.2.3"
libm = "=0.2.16"
bytemuck = "=1.25.2"
cgmath = "*"
