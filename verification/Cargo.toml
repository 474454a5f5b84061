[package]
name = "e170_systems"
version = "0.1.0"
edition = "2021"
publish = false

[dependencies]
petgraph = "0.8"
uom = "0.37"
env_logger = "0.11"
eframe = { version = "0.31", default-features = false, features = ["default_fonts", "glow", "x11"] }
egui_extras = { version = "0.31", default-features = false }
