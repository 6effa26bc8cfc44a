[package]
name = "uncflow"
version = "0.1.0"
edition = "2021"
publish = false

[dependencies]
libc = "*"
nix = { version = "*", features = ["sched"] }
once_cell = "*"
parking_lot = "*"
