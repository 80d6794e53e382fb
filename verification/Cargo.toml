[package]
name = "md_echo"
version = "0.1.0"
edition = "2021"
publish = false

[dependencies]
directories = "=6.0.0"
eframe = { version = "=0.27.2", default-features = false }
egui = "=0.27.2"
egui_commonmark = { version = "=0.16.1", default-features = false, features = ["pulldown_cmark"] }
egui_extras = "=0.27.2"
rfd = { version = "0.14.1", default-features = false }
serde = { version = "=1.0.229", features = ["derive"] }
tempfile = "=3.27.0"
toml = "=0.9.12"
