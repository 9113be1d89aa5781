[package]
name = "scanclean"
version = "0.1.0"
edition = "2021"
publish = false

[dependencies]
chrono = "*"
dirs = "*"
rayon = "*"
serde_json = "*"
walkdir = "*"

[dev-dependencies]
tempfile = "*"
