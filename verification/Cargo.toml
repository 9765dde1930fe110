[package]
name = "linux_setup"
version = "0.1.0"
edition = "2021"
publish = false

[dependencies]
anyhow = "=1.0.104"
clap = { version = "=4.6.7", features = ["derive"] }
rand = "=0.9.5"
rpassword = "=7.5.4"
rust-embed = { version = "=8.13.0", features = ["interpolate-folder-path"] }
serde = { version = "=1.0.229", features = ["derive"] }
shellexpand = "=3.1.2"
toml = "=0.8.23"
users = "=0.11.0"
