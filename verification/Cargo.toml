[package]
name = "qemuctl"
version = "0.1.0"
edition = "2021"
publish = false

[dependencies]
confy = "*"
home = "*"
serde = { version = "1", features = ["derive"] }
