[package]
name = "chromatic"
version = "0.1.0"
edition = "2021"
publish = false

[dependencies]
arboard = "3"
open = "5"
reqwest = { version = "0.12", default-features = false, features = ["json"] }
serde = { version = "1", features = ["derive"] }
serde_json = "1"
