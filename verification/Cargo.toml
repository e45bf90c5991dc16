[package]
name = "rusty_league"
version = "0.1.0"
edition = "2021"
publish = false

[dependencies]
directories = "=6.0.0"
eframe = { version = "=0.37.0", default-features = false, features = ["default_fonts", "glow", "x11"] }
enigo = "=0.6.1"
image = { version = "=0.25.10", default-features = false, features = ["ico"] }
rfd = { version = "=0.17.2", default-features = false }
serde = { version = "=1.0.229", features = ["derive"] }
serde_json = "=1.0.154"
uiautomation = "=0.25.1"
