[package]
name = "koekbar"
version = "0.1.0"
edition = "2021"
publish = false

[dependencies]
async-channel = "2"
chrono = { version = "0.4", default-features = false, features = ["clock", "std"] }
glib = "*"
gtk4 = { version = "*", features = ["v4_12"] }
gtk4-layer-shell = "*"
mpris = "2"
