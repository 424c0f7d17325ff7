[package]
name = "nbody"
version = "0.1.0"
edition = "2021"

[dependencies]
clap = { version = "4", features = ["derive"] }
sdl2 = { version = "*", features = ["image"] }
