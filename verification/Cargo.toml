[package]
name = "proxy_selector"
version = "0.1.0"
edition = "2021"
publish = false

[dependencies]
cidr = { version = "*", features = ["serde"] }
serde = { version = "1", features = ["derive"] }
url = { version = "2", features = ["serde"] }
