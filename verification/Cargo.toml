[package]
name = "mouser_client"
version = "0.1.0"
edition = "2021"
publish = false

[dependencies]
serde_json = "1"
clap = { version = "4", features = ["derive"] }
dotenvy = "*"
reqwest = { version = "*", default-features = false }
secrecy = "*"
tokio = { version = "1", features = ["macros", "rt-multi-thread"] }
