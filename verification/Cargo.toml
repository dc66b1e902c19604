[package]
name = "racal"
version = "0.1.0"
edition = "2021"
publish = false

[dependencies]
serde = "*"
serde_json = "*"
async-trait = "*"
thiserror = "*"
reqwest = { version = "*", default-features = false }
