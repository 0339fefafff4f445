[package]
name = "kraken_demo"
version = "0.1.0"
edition = "2021"
publish = false

[dependencies]
rust_decimal = { version = "=1.43.0", features = ["serde-str"] }
bincode = "=1.3.3"
fjall = "=2.11.2"
csv = "=1.4.0"
serde = { version = "=1.0.229", features = ["derive"] }
thiserror = "=1.0.69"
