[package]
name = "solana-bench-tps-rate"
version = "0.1.0"
edition = "2021"
publish = false

[dependencies]
clap = "=2.34.0"
crossbeam-channel = "0.5"
log = "0.4"
rand = { version = "=0.8.8", features = ["small_rng"] }
rayon = "=1.12.0"
solana-clap-utils = "=2.1.21"
solana-cli-config = "=2.1.21"
solana-logger = "=2.1.21"
solana-net-utils = "=2.1.21"
solana-sdk = "=2.1.21"
solana-version = "=2.1.21"
