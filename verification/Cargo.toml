[package]
name = "upfind"
version = "0.1.0"
edition = "2021"
publish = false

[dependencies]
git2 = { version = "*", default-features = false }
hostname = "*"
clap = { version = "*", features = ["derive"] }
chrono = "*"

[dev-dependencies]
tempfile = "*"
