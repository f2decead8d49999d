[package]
name = "raytracer"
version = "0.1.0"
edition = "2021"
publish = false

[dependencies]
rand = "0.8"
softbuffer = "0.3"
threadpool = "1"
winit = { version = "0.29", features = ["rwh_05"] }
