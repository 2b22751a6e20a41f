[package]
name = "cargo-generate"
version = "0.1.0"
edition = "2021"
publish = false

[dependencies]
heck = "=0.5.0"
regex = "=1.13.1"
ignore = "=0.4.34"
semver = "=1.0.28"
serde = { version = "=1.0.229", features = ["derive"] }
toml = "=0.8.23"
clap = { version = "=4.6.7", features = ["derive"] }
anyhow = "=1.0.104"
dirs = "=5.0.1"
home = "=0.5.12"
tempfile = "=3.27.0"
liquid = "=0.26.11"
liquid-core = "=0.26.11"
rhai = "=1.27.0"
thiserror = "=1.0.69"
log = "=0.4.35"
kstring = "=2.0.2"
time = "=0.3.55"
names = { version = "=0.14.0", default-features = false }
path-absolutize = "=3.1.1"
sanitize-filename = "0.5"
