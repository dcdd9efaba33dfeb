[package]
name = "libcnab"
version = "0.1.0"
edition = "2021"
publish = false

[dependencies]
semver = "1"
serde_json = "1"
chrono = "0.4"
