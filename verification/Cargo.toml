[package]
name = "sol_primitives"
version = "0.1.0"
edition = "2021"
publish = false

[dependencies]
axum = "0.8"
base64 = "0.22"
bs58 = "0.5"
serde = { version = "1", features = ["derive"] }
solana-program = "2"
solana-sdk = "2"
spl-associated-token-account = "7"
spl-token = "8"
tokio = { version = "1", features = ["rt-multi-thread", "net", "macros"] }
