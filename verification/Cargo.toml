[package]
name = "aiq_runner"
version = "0.1.0"
edition = "2021"
publish = false

[dependencies]
serde = { version = "1", features = ["derive"] }
serde_json = "1"
serde_json_canonicalizer = "*"
sha2 = "0.10"
hex = "0.4"
jiff = "0.2"
ed25519-dalek = "2"
clap = { version = "4", features = ["derive"] }
libc = "0.2"
