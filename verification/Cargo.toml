[package]
name = "bela"
version = "0.1.0"
edition = "2021"
publish = false

[dependencies]
bela-sys = "*"
nix = { version = "*", features = ["signal"] }
