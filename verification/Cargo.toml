[package]
name = "af_cli"
version = "0.1.0"
edition = "2021"
publish = false

[dependencies]
anyhow = "1"
chrono = "0.4"
clap = { version = "4", features = ["derive"] }
crossbeam-channel = "0.5"
ctrlc = "3"
reqwest = { version = "0.12", default-features = false, features = ["blocking", "json"] }
rusqlite = "*"
serde = { version = "1", features = ["derive"] }
serde_json = "1"
