[package]
name = "minimal_gui"
version = "0.1.0"
edition = "2021"
publish = false

[dependencies]
conrod = "0.57"
find_folder = "0.3"
rand = "0.8"
