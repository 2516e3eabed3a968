[package]
name = "htu_toolbox"
version = "0.1.0"
edition = "2021"
publish = false

[dependencies]
url = "2"
serde_json = "1"
serde = { version = "1", features = ["derive"] }
clap = { version = "4", features = ["derive"] }
console = "*"
dialoguer = "*"
dirs = "*"
toml = "*"
eyre = "0.6"
color-eyre = "0.6"
thiserror = "1"
