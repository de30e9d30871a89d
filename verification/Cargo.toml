[package]
name = "switchblade"
version = "0.1.0"
edition = "2021"
publish = false

[dependencies]
dirs = "*"
input = "*"
libc = "*"
nix = { version = "*", features = ["poll"] }
serde = { version = "*", features = ["derive"] }
toml = "*"
