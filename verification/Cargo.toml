[package]
name = "fuel_proving_games_risc0"
version = "0.1.0"
edition = "2021"
publish = false

[dependencies]
risc0-zkvm = "*"
anyhow = "*"
bincode = "1"
serde = { version = "1", features = ["derive"] }
clap = { version = "*", features = ["derive"] }
tracing = "*"
tracing-subscriber = { version = "*", features = ["env-filter"] }
csv = "*"
