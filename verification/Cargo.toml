[package]
name = "monkey_business"
version = "0.1.0"
edition = "2021"
publish = false

[dependencies]
macroquad = "*"
better_term = "*"
serde = { version = "*", features = ["derive"] }
serde_json = "*"
