[package]
name = "smoothie"
version = "0.1.0"
edition = "2021"
publish = false

[dependencies]
regex = "1"
clap = { version = "4", features = ["derive"] }
color-eyre = "0.6"
indicatif = "0.17"
open-file = "*"
rfd = "0.14"
rustsynth = "*"
serde = { version = "1", features = ["derive"] }
serde_json = "1"
