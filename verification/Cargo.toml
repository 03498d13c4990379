[package]
name = "ibswm"
version = "0.1.0"
edition = "2021"
publish = false

[dependencies]
clap = { version = "*", features = ["derive"] }
env_logger = "*"
log = "*"
nix = { version = "*", features = ["poll"] }
x11rb = "*"
