[package]
name = "walker"
version = "0.1.0"
edition = "2021"
publish = false

[dependencies]
anyhow = "1"
arc-swap = "1"
async-trait = "0.1"
clap = { version = "3", features = ["derive"] }
faster-hex = "0.4"
futures = "0.3"
regex = "1"
slog = "2"
tokio = { version = "1", features = ["rt", "sync", "time"] }
uuid = { version = "1", features = ["v4"] }
