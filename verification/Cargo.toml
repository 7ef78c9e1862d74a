[package]
name = "thunder_reset"
version = "0.1.0"
edition = "2021"
publish = false

[dependencies]
fastnbt = "2"
flate2 = "1"
notify = "6"
config = { version = "0.13", default-features = false, features = ["toml"] }
enigo = "0.1"
inputbot = "0.6"
serde = { version = "1", features = ["derive"] }
