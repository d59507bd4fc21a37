[package]
name = "mun_abi"
version = "0.1.0"
edition = "2021"
publish = false

[dependencies]
extendhash = "1"
once_cell = "1"
parking_lot = "0.12"
serde = { version = "1", features = ["derive"] }
serde_repr = "0.1"
