[package]
name = "keycast"
version = "0.1.0"
edition = "2021"
publish = false

[dependencies]
arboard = { version = "3", features = ["wayland-data-control"] }
evdev = "0.13"
