[package]
name = "cargo_play"
version = "0.1.0"
edition = "2021"
publish = false

[dependencies]
base64 = "0.13"
log = "0.4"
pathdiff = "0.2"
serde = { version = "1", features = ["derive"] }
sha1 = "0.6"
structopt = "0.3"
toml = "0.5"
