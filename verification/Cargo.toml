[package]
name = "wasm_pack"
version = "0.1.0"
edition = "2021"
publish = false

[dependencies]
anyhow = "1"
clap = { version = "4", features = ["derive"] }
env_logger = "0.11"
human-panic = "2"
serde = { version = "1", features = ["derive"] }
ureq = { version = "3", features = ["json"] }
