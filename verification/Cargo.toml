[package]
name = "daemonize_me"
version = "2.0.0"
edition = "2021"
publish = false

[dependencies]
libc = "*"
nix = { version = "*", features = ["user", "fs", "process"] }
thiserror = "*"
