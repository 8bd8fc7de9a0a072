[package]
name = "deskhud_egui"
version = "0.9.2"
edition = "2021"
publish = false

[dependencies]
egui = { version = "=0.36.2", default-features = false }
winit = { version = "=0.30.13", default-features = false, features = ["x11"] }
