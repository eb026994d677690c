[package]
name = "spectrum_fft"
version = "0.1.0"
edition = "2021"
publish = false

[dependencies]
microfft = "*"
libm = "*"
bytemuck = "*"
