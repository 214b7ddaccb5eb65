[package]
name = "maschine_core"
version = "0.1.0"
edition = "2021"
publish = false

[dependencies]
rosc = "*"
midly = "*"
hidapi = "*"
midir = "*"
clap = { version = "*", features = ["derive"] }
config = { version = "*", default-features = false, features = ["toml"] }
