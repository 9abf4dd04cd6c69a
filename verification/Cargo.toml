[package]
name = "fsmeta"
version = "0.1.0"
edition = "2021"
publish = false

[dependencies]
cfg-if = "0.1"
libc = "0.2"
nix = "0.17"
