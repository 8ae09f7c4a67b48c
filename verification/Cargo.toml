[package]
name = "tx_submit_errors"
version = "0.1.0"
edition = "2021"
publish = false

[dependencies]
pallas-codec = "=1.4.0"
pallas-crypto = "=1.4.0"
pallas-network = "=1.4.0"
pallas-traverse = "=1.4.0"
hex = "=0.4.3"
serde = { version = "=1.0.229", features = ["derive"] }
serde_json = "=1.0.151"
clap = { version = "=4.6.7", features = ["derive"] }
chrono = "=0.4.45"
tokio = { version = "=1.53.2", features = ["rt", "macros"] }
