[package]
name = "avanza"
version = "0.1.0"
edition = "2021"
publish = false

[dependencies]
envy = "*"
reqwest = { version = "*", default-features = false, features = ["json"] }
serde = { version = "*", features = ["derive"] }
serde_json = "*"
