[package]
name = "fluminurs"
version = "1.2.3"
edition = "2021"
publish = false

[dependencies]
chrono = "*"
sanitize-filename = "*"
reqwest = { version = "*", default-features = false }
tokio = { version = "*", features = ["rt-multi-thread", "macros", "fs", "io-util"] }
futures-util = "*"
clap = "*"
serde = { version = "*", features = ["derive"] }
serde_json = "*"
rpassword = "*"
ammonia = "*"
htmlescape = "*"
env_logger = "*"
bitflags = "*"
