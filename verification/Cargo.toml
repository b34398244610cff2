[package]
name = "splitter_host"
version = "0.1.0"
edition = "2021"
publish = false

[dependencies]
time = "0.3"
indexmap = "2"
livesplit-auto-splitting = "*"
notify = "*"
