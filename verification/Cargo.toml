[package]
name = "wvr_shadertoy"
version = "0.1.0"
edition = "2021"
publish = false

[dependencies]
anyhow = "*"
serde = { version = "*", features = ["derive"] }
serde_derive = "*"
serde_json = "*"
ureq = "2"
