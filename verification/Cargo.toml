[package]
name = "payments_engine"
version = "0.1.0"
edition = "2021"
publish = false

[dependencies]
rust_decimal = { version = "1", features = ["serde"] }
rustc-hash = "2"
serde = { version = "1", features = ["derive"] }
csv = "1"
anyhow = "1"
thiserror = "2"
