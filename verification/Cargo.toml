[package]
name = "pystubgen"
version = "0.1.0"
edition = "2021"
publish = false

[dependencies]
syn = { version = "*", features = ["full"] }
quote = "*"
toml_edit = "*"
clap = { version = "*", features = ["derive"] }
