[package]
name = "judge_engine"
version = "0.1.0"
edition = "2021"
publish = false

[dependencies]
sha256 = { version = "1", default-features = false }
fancy-regex = "*"
tokio = { version = "1", features = ["process", "io-util", "time", "fs", "sync", "rt", "macros"] }
serde = { version = "1", features = ["derive"] }
toml = "*"
dunce = "1"
anyhow = "1"
log = "0.4"

[dev-dependencies]
nom = "*"
