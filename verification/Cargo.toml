[package]
name = "appimage_launcher"
version = "0.1.0"
edition = "2021"
publish = false

[dependencies]
fltk = "1.4"
serde = { version = "1", features = ["derive"] }
serde_json = "1"
lazy_static = "1"
