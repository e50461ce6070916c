[package]
name = "fdops"
version = "0.1.0"
edition = "2021"
publish = false

[dependencies]
nix = { version = "=0.31.3", features = ["fs", "uio", "socket", "term", "ioctl", "poll", "time"] }
libc = "=0.2.190"
io-lifetimes = "=3.0.1"
