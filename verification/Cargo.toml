[package]
name = "mystbot"
version = "0.1.0"
edition = "2021"
publish = false

[dependencies]
sha1 = "*"
hex = "*"
dashmap = "*"
tokio = { version = "*", features = ["rt-multi-thread", "macros", "sync", "time", "fs"] }
anyhow = "*"
tempfile = "*"
serde = "*"
serde_json = "*"
regex = "*"
toml = "*"
futures = "*"
clokwerk = "*"
grammers-client = "*"
reqwest = "*"
sqlx = { version = "*", features = ["sqlite", "runtime-tokio"] }
