[package]
name = "test-reporter"
version = "0.1.0"
edition = "2021"
publish = false

[dependencies]
indicatif = "0.17"
is_ci = "1"
owo-colors = "3.5"
serde = { version = "1", features = ["derive"] }
shell-words = "1"
strip-ansi-escapes = "0.2"
uuid = "1"
