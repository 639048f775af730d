[package]
name = "oze_canopen_viewer"
version = "0.1.0"
edition = "2021"
publish = false

[dependencies]
oze-canopen = "=0.1.0"
regex = "=1.13.1"
tokio = { version = "=1.54.1", features = ["full"] }
clap = { version = "=4.6.7", features = ["derive"] }
pretty_env_logger = "=0.5.0"
eframe = { version = "0.33", default-features = false, features = ["default_fonts", "glow", "x11"] }
egui = "0.33"
egui_plot = "0.34"
catppuccin-egui = { version = "=5.7.0", default-features = false, features = ["egui33"] }
