[package]
name = "cookbook_fetch"
version = "0.1.0"
edition = "2021"
publish = false

[dependencies]
blake3 = "=1.8.7"
redox-pkg = { version = "=0.3.3", default-features = false }
redoxer = { version = "=0.2.62", default-features = false }
serde = { version = "=1.0.229", features = ["derive"] }
serde_json = "=1.0.154"
toml = "=1.1.8"
