[package]
name = "pahkat_client"
version = "0.1.0"
edition = "2021"
publish = false

[dependencies]
async-stream = "0.3"
futures = "0.3"
log = "0.4"
serde = { version = "1", features = ["derive"] }
stream-cancel = "0.8"
thiserror = "1"
toml = "0.5"
