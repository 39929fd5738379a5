[package]
name = "snapcase"
version = "0.1.0"
edition = "2021"
publish = false

[dependencies]
basic-toml = "0.1"
dissimilar = "1"
glob = "0.3"
once_cell = "1"
serde_json = "1"
termcolor = "1"
