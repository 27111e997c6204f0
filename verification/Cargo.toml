[package]
name = "rust_screenshot"
version = "0.1.0"
edition = "2021"
publish = false

[dependencies]
eframe = { version = "=0.23.0", default-features = false, features = ["default_fonts", "glow", "x11"] }
egui = { version = "=0.23.0", features = ["serde"] }
epaint = "=0.23.0"
image = { version = "=0.24.9", default-features = false, features = ["png", "jpeg", "gif", "bmp"] }
rfd = "=0.12.1"
arboard = { version = "=3.7.0", default-features = false, features = ["image-data"] }
chrono = { version = "=0.4.45", default-features = false, features = ["clock", "std"] }
dirs = "=5.0.1"
serde = { version = "=1.0.229", features = ["derive"] }
serde_json = "=1.0.154"
