[package]
name = "totalmix_volume_control"
version = "0.1.0"
edition = "2021"
publish = false

[dependencies]
anyhow = "*"
parking_lot = "*"
rosc = "*"
serde = { version = "*", features = ["derive"] }
toml = "*"
