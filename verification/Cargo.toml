[package]
name = "florust"
version = "0.1.0"
edition = "2021"
publish = false

[dependencies]
toml = "0.8"
serde = { version = "1", features = ["derive"] }
serde_json = "1"
thiserror = "1"
async-trait = "0.1"
libloading = "0.8"
log = "0.4"
rocket = { version = "0.5", features = ["json"] }
