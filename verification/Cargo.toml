[package]
name = "dora_openarm_vr"
version = "0.1.0"
edition = "2021"
publish = false

[dependencies]
serde_json = "1"
clap = { version = "4", features = ["derive"] }
eyre = "0.6"
arrow = { version = "54.2.1", default-features = false }
