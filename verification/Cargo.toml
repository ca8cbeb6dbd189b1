[package]
name = "adh_rs"
version = "0.1.0"
edition = "2021"
publish = false

[dependencies]
lerp = "*"
rustdct = "*"
rand = "0.8"
anyhow = "1"
serde = { version = "1", features = ["derive"] }
serde_json = "1"
bincode = { version = "2", features = ["serde"] }
xdg = "*"
cpal = "0.15"
