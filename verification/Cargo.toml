[package]
name = "screen_capture"
version = "0.1.0"
edition = "2021"
publish = false

[dependencies]
eframe = { version = "=0.23.0", default-features = false, features = ["default_fonts", "glow", "x11"] }
egui = "=0.23.0"
egui_extras = { version = "=0.23.0", features = ["image"] }
image = { version = "0.24", default-features = false, features = ["png"] }
