[package]
name = "shunt"
version = "0.1.0"
edition = "2021"
publish = false

[dependencies]
anyhow = "1"
json5 = "0.4"
nix = { version = "0.26", features = ["term", "process", "signal", "fs"] }
serde = { version = "1", features = ["derive"] }
signal-hook = "0.3"
termcolor = "1"
