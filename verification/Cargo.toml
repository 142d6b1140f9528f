[package]
name = "packwiz_gui"
version = "0.1.0"
edition = "2021"
publish = false

[dependencies]
eframe = { version = "0.23", default-features = false, features = ["default_fonts", "glow", "wayland"] }
egui = "0.23"
egui_dock = "0.8"
env_logger = "0.10"
log = "0.4"
native-dialog = "0.7"
