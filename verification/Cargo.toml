[package]
name = "porecatu_ui"
version = "0.1.0"
edition = "2021"
publish = false

[dependencies]
opener = { version = "*", features = ["reveal"] }
arboard = { version = "*", default-features = false }
notify = "*"
dirs = "*"
