[package]
name = "manifest_diff"
version = "0.1.0"
edition = "2021"
publish = false

[dependencies]
anyhow = "1"
semver = "1"
tempfile = "3"
toml = "*"
walkdir = "2"
