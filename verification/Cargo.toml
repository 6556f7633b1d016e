[package]
name = "rodman_compose"
version = "0.1.0"
edition = "2021"
publish = false

[dependencies]
clap = "2"
serde = { version = "*", features = ["derive"] }
serde_yaml = "*"
