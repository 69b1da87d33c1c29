[package]
name = "ghost_shell"
version = "0.1.0"
edition = "2021"
publish = false

[dependencies]
arboard = { version = "3", default-features = false }
base64 = "0.22"
chacha20poly1305 = "0.10"
crossterm = "0.28"
libc = "0.2"
prctl = "1"
rand = "0.8"
zeroize = "1"
