[package]
name = "freemdu"
version = "0.1.0"
edition = "2021"
publish = false

[dependencies]
embedded-io-async = "*"
embedded-io-adapters = { version = "*", features = ["tokio-1"] }
serial2-tokio = "*"
tokio = { version = "1", features = ["rt", "macros", "time"] }
futures = "*"
clap = { version = "4", features = ["derive"] }
env_logger = "*"
log = "*"

[dev-dependencies]
bitflags = "2"
strum = "*"
