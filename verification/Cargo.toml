[package]
name = "prd_reviewer"
version = "0.1.0"
edition = "2021"
publish = false

[dependencies]
regex = "1"
html2md = "0.2"
sha2 = "0.10"
serde = { version = "1", features = ["derive"] }
serde_json = "1"
serde_yaml = "0.9"
clap = { version = "4", features = ["derive"] }
ureq = { version = "2", features = ["json"] }
rustls = { version = "0.23", default-features = false, features = ["ring", "std", "tls12", "logging"] }
comfy-table = "7"
