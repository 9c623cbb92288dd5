[package]
name = "user_chroot"
version = "0.1.0"
edition = "2021"
publish = false

[dependencies]
nix = { version = "*", features = ["mount", "sched", "user", "fs"] }
tempfile = "*"
