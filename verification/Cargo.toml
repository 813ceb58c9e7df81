[package]
name = "rust_sqlite"
version = "0.1.0"
edition = "2021"
publish = false

[dependencies]
clap = "*"
env_logger = "*"
rustyline = "*"
rustyline-derive = "*"
