[package]
name = "whspr_rs"
version = "0.1.0"
edition = "2021"
publish = false

[dependencies]
toml_edit = "*"
libc = "*"
serde = { version = "*", features = ["derive"] }
toml = "*"
clap = { version = "*", features = ["derive"] }
