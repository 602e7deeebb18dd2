[package]
name = "ratto"
version = "0.1.0"
edition = "2021"
publish = false

[dependencies]
anyhow = "=1.0.104"
bitflags = "=1.3.2"
clap = { version = "=4.6.7", features = ["derive"] }
ron = "=0.12.2"
serde = { version = "=1.0.229", features = ["derive"] }
x86_64 = { version = "=0.15.5", default-features = false, features = ["instructions"] }
