[package]
name = "memguard"
version = "0.1.0"
edition = "2021"
publish = false

[dependencies]
rand = "0.8"
zeroize = "*"
nix = { version = "*", features = ["ptrace"] }
page_size = "*"
libc = "*"
tokio = { version = "*", features = ["rt", "macros"] }
