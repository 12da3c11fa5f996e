[package]
name = "pair_arbitrage"
version = "0.1.0"
edition = "2021"
publish = false

[dependencies]
rust_decimal = { version = "1", default-features = false, features = ["std"] }
anyhow = "1"
log = "0.4"
tokio = { version = "1", default-features = false, features = ["sync", "time", "macros", "rt"] }
