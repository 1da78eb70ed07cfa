[package]
name = "trellis"
version = "0.1.0"
edition = "2021"
publish = false

[dependencies]
anyhow = "=1.0.104"
clap = { version = "=4.6.7", features = ["derive"] }
libc = "=0.2.191"
lru = { version = "=0.19.0", default-features = false }
serde = { version = "=1.0.229", features = ["derive"] }
toml = "=1.1.8"
walkdir = "=2.5.0"
