[package]
name = "asposepdf"
version = "0.1.0"
edition = "2021"
publish = false

[dependencies]
bzip2 = "*"
hex = "*"
serde = { version = "1", features = ["derive"] }
serde_json = "1"
sha2 = "*"
