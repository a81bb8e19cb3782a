[package]
name = "tiberius_pool"
version = "0.1.0"
edition = "2021"
publish = false

[dependencies]
anyhow = "1"
async-trait = "0.1"
bb8 = "0.8"
testcontainers = "0.14"
tiberius = { version = "0.12", default-features = false, features = ["tds73"] }
tokio = { version = "1", features = ["full"] }
tokio-util = { version = "0.7", features = ["compat"] }
