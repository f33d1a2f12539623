[package]
name = "switcher"
version = "0.1.0"
edition = "2021"
publish = false

[dependencies]
base64 = "=0.22.1"
sha1_smol = "=1.0.1"
serde = { version = "1", features = ["derive"] }
serde_json = "1"

[dev-dependencies]
deku = "0.18"
