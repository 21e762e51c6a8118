[package]
name = "quantum_echoes"
version = "0.1.0"
edition = "2021"
publish = false

[dependencies]
vulkano = "0.35"
vulkano-util = "0.35"
winit = "0.30"
egui_winit_vulkano = "0.28"
