[package]
name = "rancher_cli"
version = "0.1.0"
edition = "2021"
publish = false

[dev-dependencies]
clap = { version = "4", default-features = false, features = ["std"] }
