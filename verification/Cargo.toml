[package]
name = "scumsim"
version = "0.1.0"
edition = "2021"
publish = false

[dependencies]
specs = "*"
log = "*"
env_logger = "*"
