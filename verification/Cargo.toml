[package]
name = "nbody"
version = "0.1.0"
edition = "2021"
publish = false

[dependencies]
rustc_apfloat = "=0.2.3"
softfloat = "=1.0.0"
piston = "=1.0.0"
piston2d-graphics = "=0.45.0"
pistoncore-glutin_window = "=0.73.2"
piston2d-opengl_graphics = "=0.89.0"
rand = "=0.8.8"
