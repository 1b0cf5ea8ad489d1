[package]
name = "adept"
version = "0.1.0"
edition = "2021"
publish = false

[dependencies]
rand = "0.8"
serde = { version = "1", features = ["derive"] }
csv = "1"
serde_yaml = "0.9"
log = "0.4"
fast_log = "1"
indicatif = "0.17"
rayon = "1"
strum = { version = "0.24", features = ["derive"] }
