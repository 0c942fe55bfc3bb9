[package]
name = "world_tables"
version = "0.1.0"
edition = "2021"
publish = false

[dependencies]
url = "=2.5.8"
http = "=0.2.12"
dbent = "=0.1.1"
anyhow = "=1.0.104"
serde = { version = "=1.0.229", features = ["derive"] }
reqwest = { version = "=0.11.27", default-features = false, features = ["blocking", "json"] }
clap = { version = "=4.6.7", features = ["derive"] }
egui = "=0.21.0"
egui_extras = "=0.21.0"
eframe = { version = "0.21", default-features = false, features = ["glow"] }
