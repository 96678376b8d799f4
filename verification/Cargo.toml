[package]
name = "ledger_core"
version = "0.1.0"
edition = "2021"
publish = false

[dependencies]
sha256 = { version = "=1.6.0", default-features = false }
hex = "=0.4.3"
ecdsa = { version = "=0.16.9", features = ["signing", "verifying", "std"] }
k256 = "=0.13.4"
rand_core = { version = "=0.6.4", features = ["std"] }
chrono = "=0.4.45"
uuid = { version = "=1.27.0", features = ["v4"] }
serde = { version = "=1.0.229", features = ["derive"] }
ciborium = "=0.2.2"
