[package]
name = "crufty"
version = "0.1.0"
edition = "2021"
publish = false

[dependencies]
globset = "*"
walkdir = "*"
fs_extra = "*"
clap = { version = "*", features = ["derive"] }
console = "*"
indicatif = "*"

[dev-dependencies]
assert_fs = "*"
