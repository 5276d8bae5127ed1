[package]
name = "pwgen"
version = "0.1.0"
edition = "2021"
publish = false

[dependencies]
rand = "0.8"
rand_chacha = "0.3"
rand_core = "0.6"
clap = { version = "4", features = ["derive"] }
