[package]
name = "bndl"
version = "0.1.0"
edition = "2021"
publish = false

[dependencies]
serde_json = "1"
globset = "0.4"
pathdiff = "0.2"
serde = { version = "1", features = ["derive"] }
clap = "4"
walkdir = "2"
rayon = "1"
notify = "*"
log = "0.4"
env_logger = "*"
ctrlc = "3"
command-group = "*"
human-panic = "*"
