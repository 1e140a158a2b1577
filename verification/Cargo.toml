[package]
name = "rsnake"
version = "0.1.0"
edition = "2021"
publish = false

[dependencies]
find_folder = "0.3"
noise = { version = "0.8", default-features = false }
piston_window = "0.120"
rand = "0.8"
rodio = { version = "0.17", default-features = false, features = ["vorbis"] }
