[package]
name = "senra"
version = "0.1.0"
edition = "2021"
publish = false

[dependencies]
serde = { version = "1", features = ["derive"] }
serde_json = "1"
postcard = { version = "1", features = ["alloc"] }
http = "1"
time = { version = "0.3", features = ["serde", "serde-well-known", "formatting", "parsing"] }
thiserror = "2"
reqwest = { version = "0.12", default-features = false, features = ["json"] }
async-trait = "0.1"
tokio = { version = "1", features = ["fs", "rt", "macros"] }
