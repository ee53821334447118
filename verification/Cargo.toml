[package]
name = "resterror"
version = "0.1.0"
edition = "2021"
publish = false

[dependencies]
serde = { version = "*", features = ["derive"] }
serde_json = "*"
poreader = "*"
actix-web = { version = "*", default-features = false }
