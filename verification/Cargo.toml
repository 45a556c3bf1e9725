[package]
name = "myprio"
version = "0.1.0"
edition = "2021"
publish = false

[dependencies]
rusqlite = { version = "=0.40.2", features = ["bundled", "fallible_uint"] }
chrono = "=0.4.45"
clap = { version = "=4.6.7", features = ["derive"] }
inquire = { version = "=0.9.4", features = ["editor"] }
home = "=0.5.12"
log = "=0.4.34"
env_logger = "=0.11.11"

[dev-dependencies]
tempfile = "=3.27.0"
