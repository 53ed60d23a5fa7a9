[package]
name = "command_group"
version = "0.1.0"
edition = "2021"
publish = false

[dependencies]
nix = { version = "0.26", default-features = false, features = ["process", "signal"] }
