[package]
name = "term_video"
version = "0.1.0"
edition = "2021"
publish = false

[dependencies]
anyhow = "1"
clap = { version = "4", features = ["derive"] }
crossbeam-channel = "0.5"
crossterm = "*"
ctrlc = "3"
dialoguer = "*"
lz4 = "1"
opencv = "*"
rayon = "1"
serde_json = "1"
thread-priority = "*"
