[package]
name = "battery_tray"
version = "0.1.0"
edition = "2021"
publish = false

[dependencies]
ab_glyph = "=0.2.32"
image = { version = "=0.25.10", default-features = false, features = ["ico"] }
imageproc = { version = "=0.25.1", default-features = false }
owned_ttf_parser = "=0.25.1"
tokio = { version = "=1.53.2", default-features = false, features = ["rt-multi-thread", "sync", "time", "macros"] }
battery = "=0.7.8"
