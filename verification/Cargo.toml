[package]
name = "shinobi"
version = "0.1.0"
edition = "2021"
publish = false

[dependencies]
anyhow = "=1.0.104"
base64 = "=0.21.7"
clap = { version = "=4.6.7", features = ["derive"] }
colored = "=2.2.0"
image = "=0.24.9"
reqwest = { version = "=0.11.27", features = ["json"] }
serde = { version = "=1.0.229", features = ["derive"] }
serde_json = "=1.0.154"
solana-sdk = "=1.18.26"
tokio = { version = "=1.54.1", features = ["full"] }
viuer = "=0.7.1"

[dev-dependencies]
borsh = "=1.8.1"
