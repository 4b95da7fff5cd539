[package]
name = "zana"
version = "0.1.0"
edition = "2021"
publish = false

[dependencies]
async-trait = "=0.1.92"
reqwest = { version = "=0.13.5", default-features = false, features = ["json", "gzip", "query"] }
serde = { version = "=1.0.229", features = ["derive"] }
