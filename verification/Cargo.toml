[package]
name = "rs9p"
version = "0.5.0"
edition = "2021"
publish = false

[dependencies]
byteorder = "*"
log = "*"
nix = { version = "*", features = ["signal", "process"] }
