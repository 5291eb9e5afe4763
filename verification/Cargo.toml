[package]
name = "block_proxy"
version = "0.1.0"
edition = "2021"
publish = false

[dependencies]
rand = "*"
serde_json = "*"
axum = "*"
tokio = { version = "*", features = ["macros", "rt-multi-thread", "net"] }
reqwest = { version = "*", default-features = false, features = ["json"] }
log = "*"
env_logger = "*"
config = "*"
serde = { version = "*", features = ["derive"] }
serde_derive = "*"
