[package]
name = "tlmd"
version = "0.1.0"
edition = "2021"
publish = false

[dependencies]
crossterm = "*"
zeroize = "*"
pam-client2 = "*"
nix = { version = "*", features = ["user"] }
uzers = "*"
