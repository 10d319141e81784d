[package]
name = "unsegen_terminal"
version = "0.3.1"
edition = "2021"
publish = false

[dependencies]
libc = "=0.2.191"
log = "=0.4.34"
nix = "=0.31.3"
unsegen = "=0.3.1"
vte = "0.8"
