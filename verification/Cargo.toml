[package]
name = "rustacean_roulette"
version = "0.1.0"
edition = "2021"
publish = false

[dependencies]
rand = "0.9"
frankenstein = { version = "*", features = ["client-reqwest"] }
tokio = { version = "1", features = ["macros", "rt-multi-thread", "sync"] }
serde = { version = "1", features = ["derive"] }
toml = "*"
log = "0.4"
env_logger = "*"
