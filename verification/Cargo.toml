[package]
name = "schema_lints"
version = "0.1.0"
edition = "2021"
publish = false

[dependencies]
cruet = "*"
clap = { version = "*", features = ["derive"] }
