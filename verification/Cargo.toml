[package]
name = "dcap_preprocess"
version = "0.1.0"
edition = "2021"
publish = false

[dependencies]
clap = { version = "4", features = ["derive"] }
color-eyre = "*"
eyre = "*"
hex = "*"
serde = { version = "1", features = ["derive"] }
serde_json = "1"
x509-parser = "*"
