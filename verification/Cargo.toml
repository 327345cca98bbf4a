[package]
name = "evm_overlay"
version = "0.1.0"
edition = "2021"
publish = false

[dependencies]
clap = { version = "3.2", features = ["derive"] }
ethers-core = { version = "2.0", default-features = false }
eyre = "0.6"
figment = "0.10"
serde = { version = "1", features = ["derive"] }
