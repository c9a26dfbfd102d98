[package]
name = "ctxguard"
version = "0.2.0"
edition = "2021"
publish = false

[dependencies]
anyhow = "1"
chrono = "0.4"
clap = { version = "4", features = ["derive"] }
notify = "6"
serde_json = "1"
tabled = "0.15"
walkdir = "2"
