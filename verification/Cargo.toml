[package]
name = "gbindgen"
version = "0.1.0"
edition = "2021"
publish = false

[dependencies]
clap = "=2.34.0"
heck = "=0.3.3"
log = "=0.4.34"
semver = "=0.9.0"
serde_json = "=1.0.154"
toml = "0.9"
