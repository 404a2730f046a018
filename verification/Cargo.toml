[package]
name = "mussh"
version = "0.1.0"
edition = "2021"
publish = false

[dependencies]
clap = { version = "=4.6.7", features = ["derive"] }
toml = { version = "=1.1.7", features = ["preserve_order"] }
ssh2 = "=0.9.6"
