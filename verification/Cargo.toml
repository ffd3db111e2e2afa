[package]
name = "openfare_rs_lib"
version = "0.1.0"
edition = "2021"
publish = false

[dependencies]
anyhow = "=1.0.104"
env_logger = "=0.11.11"
log = "=0.4.34"
openfare-lib = "=0.6.2"
reqwest = { version = "=0.12.28", default-features = false, features = ["blocking", "rustls-tls"] }
serde = { version = "=1.0.229", features = ["derive"] }
serde_json = "=1.0.151"
tempdir = "=0.3.7"
toml = "=1.1.6"
url = "=2.5.8"
