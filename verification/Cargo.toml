[package]
name = "wicket"
version = "0.1.0"
edition = "2021"
publish = false

[dependencies]
chrono = "0.4"
sha2 = "0.10"
serde = { version = "1", features = ["derive"] }
serde_json = "1"
serde_jcs = "0.1"
clap = { version = "4", features = ["derive"] }
