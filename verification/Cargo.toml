[package]
name = "itj_tiny_deps"
version = "0.1.0"
edition = "2021"
publish = false

[dependencies]
argh = "0.1"
libc = "0.2"
serde = { version = "1", features = ["derive"] }
serde_json = "1"
