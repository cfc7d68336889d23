[package]
name = "camcap"
version = "0.1.0"
edition = "2021"
publish = false

[dependencies]
anyhow = "1"
eframe = { version = "0.21", default-features = false, features = ["default_fonts", "glow"] }
egui = "0.21"
env_logger = "0.10"
log = "0.4"
nokhwa = { version = "0.10", features = ["input-v4l"] }
tokio = { version = "1", features = ["rt", "sync", "time", "macros"] }
