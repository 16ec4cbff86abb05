[package]
name = "hyprland-activewindow"
version = "0.1.0"
edition = "2021"
publish = false

[dependencies]
hyprland = "0.3"
serde_json = "1"
