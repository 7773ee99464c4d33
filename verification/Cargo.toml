[package]
name = "swtchr"
version = "0.1.0"
edition = "2021"
publish = false

[dependencies]
swayipc = "*"
clap = { version = "*", features = ["derive"] }
serde = { version = "*", features = ["derive"] }
toml = "*"
eyre = "*"
color-eyre = "*"
async-channel = "*"
nix = { version = "*", features = ["user"] }
