[package]
name = "notebatch"
version = "0.1.0"
edition = "2021"
publish = false

[dependencies]
hound = "*"
rustysynth = "*"
clap = { version = "*", features = ["derive"] }
