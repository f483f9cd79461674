[package]
name = "rsh"
version = "0.1.0"
edition = "2021"
publish = false

[dependencies]
chrono = { version = "0.4", default-features = false, features = ["clock", "std"] }
colored = "2"
crossterm = "0.27"
nix = "0.26"
signal-hook = "0.3"
unicode-segmentation = "1"
whoami = "1"

[dev-dependencies]
nom = "7"
