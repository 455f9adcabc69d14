[package]
name = "bob"
version = "0.1.0"
edition = "2021"
publish = false

[dependencies]
log = "0.4"
once_cell = "1"
pretty_env_logger = "0.4"
regex = "1"
serenity = "0.8"
