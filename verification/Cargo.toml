[package]
name = "wlbreaktime"
version = "0.1.0"
edition = "2021"
publish = false

[dependencies]
libsystemd = "0.7"
log = "0.4"
notify-rust = "4"
regex = "1"
rodio = { version = "0.20", default-features = false, features = ["wav"] }
wayland-client = "0.31"
wayland-protocols = { version = "0.32", features = ["client"] }
