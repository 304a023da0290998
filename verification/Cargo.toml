[package]
name = "soroban_testkit"
version = "0.1.0"
edition = "2021"
publish = false

[dependencies]
soroban-sdk = { version = "=27.0.6", features = ["testutils"] }
soroban-spec = "=27.0.6"
clap = { version = "=4.6.7", features = ["derive"] }
clap_complete = "=4.6.11"
thiserror = "=2.0.21"
