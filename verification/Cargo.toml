[package]
name = "small_paint"
version = "0.1.0"
edition = "2021"
publish = false

[dependencies]
eframe = { version = "0.24", default-features = false, features = ["default_fonts", "glow", "x11"] }
env_logger = { version = "0.10", default-features = false }
