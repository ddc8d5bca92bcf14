[package]
name = "micropolis_core"
version = "0.1.0"
edition = "2021"
publish = false

[dependencies]
quick-xml = "0.31"
chrono = "0.4"
clap = { version = "4", features = ["derive"] }
serde = { version = "1", features = ["derive"] }
serde_json = "1"
