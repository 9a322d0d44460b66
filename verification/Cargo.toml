[package]
name = "sbtc_loan_simulator"
version = "0.1.0"
edition = "2021"
publish = false

[dependencies]
rand = "0.9"
axum = "0.8"
serde = { version = "1", features = ["derive"] }
