[package]
name = "crx_dl"
version = "0.1.0"
edition = "2021"
publish = false

[dependencies]
base64 = "0.22"
reqwest = { version = "0.12", features = ["blocking"] }
strum = { version = "0.26", features = ["derive"] }
