[package]
name = "shady"
version = "0.1.0"
edition = "2021"
publish = false

[dependencies]
clap = "=2.34.0"
glium = "=0.36.0"
imagefmt = "=4.0.0"
notify = "=4.0.18"
winit = "0.30"
