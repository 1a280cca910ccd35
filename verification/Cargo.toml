[package]
name = "dori"
version = "0.1.0"
edition = "2021"
publish = false

[dependencies]
tora = "*"
magic-crypt = "*"
anyhow = "1"
clap = { version = "4", features = ["derive"] }
cnsl = "*"
rand = "0.8"
serde = { version = "1", features = ["derive"] }
toml = "*"
auto-launch = "*"
homedir = "*"
