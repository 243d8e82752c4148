[package]
name = "dayz_linux_gui_launcher"
version = "0.1.0"
edition = "2021"
publish = false

[dependencies]
toml = "0.7"
eframe = { version = "0.21", default-features = false, features = ["glow", "default_fonts"] }
egui = "0.21"
dialog = "0.3"
directories = "5"
