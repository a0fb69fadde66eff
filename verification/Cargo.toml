[package]
name = "pbcp"
version = "0.1.0"
edition = "2021"
publish = false

[dependencies]
anyhow = "1"
clap = { version = "4", features = ["derive"] }
filetime = "0.2"
indicatif = "0.17"
nix = "0.26"
walkdir = "2"

[dev-dependencies]
tempfile = "3"
