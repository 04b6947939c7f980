[package]
name = "lights_tuya"
version = "0.1.0"
edition = "2021"
publish = false

[dependencies]
encoding = "0.2"
serde = { version = "1", features = ["derive"] }
serde_json = "1"
smol = "*"
surf = "2"
thiserror = "1"
toml = "*"
