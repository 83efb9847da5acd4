[package]
name = "winsched_logic"
version = "0.1.0"
edition = "2021"
publish = false

[dependencies]
atomic-write-file = "0.3"
clap = { version = "4", features = ["derive"] }
eframe = { version = "0.34", default-features = false, features = ["default_fonts", "glow"] }
image = { version = "0.25", default-features = false, features = ["png"] }
serde = { version = "1", features = ["derive"] }
serde_json = "1"
thiserror = "2"
toml = "1"
tray-icon = { version = "0.21", default-features = false }
windows-service = "0.8"
winit = { version = "0.30", default-features = false, features = ["rwh_06"] }
