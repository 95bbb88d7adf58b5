[package]
name = "emitter"
version = "0.1.0"
edition = "2021"
publish = false

[dependencies]
itertools = "*"
ron = "*"
serde = { version = "*", features = ["derive"] }
rand = "*"
