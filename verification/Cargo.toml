[package]
name = "aa_module"
version = "0.1.0"
edition = "2021"
publish = false

[dependencies]
anyhow = "1"
crossbeam-channel = "0.5"
curl = "0.4"
libc = "0.2"
serde = { version = "1", features = ["derive"] }
serde_json = "1"
