[package]
name = "install-mimic"
version = "0.4.3"
edition = "2021"
publish = false

[dependencies]
clap = { version = "*", features = ["derive"] }
expect-exit = "*"
shell-words = "*"
