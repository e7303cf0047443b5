[package]
name = "halo2_cli"
version = "0.1.0"
edition = "2021"
publish = false

[dependencies]
hex = "=0.4.3"
serde_json = "=1.0.151"
clap = { version = "=4.6.7", features = ["derive"] }
color-eyre = "=0.6.5"
dirs = "=7.0.0"
tokio = { version = "=1.53.2", features = ["rt"] }
