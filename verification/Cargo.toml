[package]
name = "dnotepadx"
version = "0.1.0"
edition = "2021"
publish = false

[dependencies]
serde = { version = "1", features = ["derive"] }
serde_json = "1"
dirs = "5"
eframe = { version = "=0.23.0", default-features = false, features = ["glow"] }
rfd = { version = "0.14", default-features = false, features = ["xdg-portal", "tokio"] }
